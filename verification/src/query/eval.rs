//! The evaluation engine: executes a parsed `Query` against a document
//! and a registry, producing an ordered sequence of values.
//!
//! Execution threads a current value set through the stages in order:
//! initially the document's root reference, then each stage consumes
//! the whole set and produces the next. Any failing stage aborts the
//! query; no partial results are returned. Stage names and arities are
//! checked up front, before any document access, so a query naming an
//! unregistered selector or function fails whatever the earlier stages
//! would have produced.
//!
//! `spec_execute` is the full functional specification of execution
//! over the built-in operations; `Engine::execute` is proved to return
//! exactly what it describes whenever the query resolves to built-ins
//! only, and to enforce validation errors exactly in every case.

use vstd::prelude::*;

use crate::document::{Document, Node, NodeKind, NodeModel};
use crate::query::ast::{expr_models, lemma_expr_models_index, part_models, Expr, ExprModel, Lit, LitModel, Query, SelPart, SelPartModel};
use crate::query::error::{ErrKindModel, ErrModel, QueryError, QueryErrorKind, Span};
use crate::query::registry::{
    reg_ext, reg_fn, ArityModel, BuiltinExtractor, BuiltinFn, EvalContext, Extension,
    ExtractorImpl, FnImpl, FnModel, NoExtension, RegModel, Registry,
};
use crate::query::value::{
    text_of, val_model, val_models, join_with, lemma_join_with_push, lemma_val_models_index,
    ElemModel, ElemRef, ValModel, Value,
};
use crate::strutil::{lower_of, lowercase, trim_of, trim_text, upper_of, uppercase};

verus! {

/// The structural reference to node `j` of the document.
pub open spec fn elem_of(doc: Seq<NodeModel>, j: int) -> ElemModel {
    ElemModel {
        id: j,
        kind: doc[j].kind,
        level: doc[j].level,
        text: doc[j].text,
        target: doc[j].target,
    }
}

/// Does a node belong to the element category an extractor selects?
pub open spec fn kind_matches(x: BuiltinExtractor, n: NodeModel) -> bool {
    match x {
        BuiltinExtractor::Heading(l) => n.kind == NodeKind::Heading && n.level == l as int,
        BuiltinExtractor::AnyHeading => n.kind == NodeKind::Heading,
        BuiltinExtractor::Paragraph => n.kind == NodeKind::Paragraph,
        BuiltinExtractor::Link => n.kind == NodeKind::Link,
        BuiltinExtractor::Table => n.kind == NodeKind::Table,
        BuiltinExtractor::CodeBlock => n.kind == NodeKind::CodeBlock,
        BuiltinExtractor::Text => false,
        BuiltinExtractor::Target => false,
        BuiltinExtractor::Level => false,
    }
}

/// The structural references to the nodes in `lo..hi` that the
/// extractor's category selects, in document (index) order.
pub open spec fn match_vals(doc: Seq<NodeModel>, x: BuiltinExtractor, lo: int, hi: int) -> Seq<
    ValModel,
>
    decreases hi - lo,
{
    if lo < 0 || hi > doc.len() || lo >= hi {
        Seq::empty()
    } else if kind_matches(x, doc[lo]) {
        seq![ValModel::Node(elem_of(doc, lo))] + match_vals(doc, x, lo + 1, hi)
    } else {
        match_vals(doc, x, lo + 1, hi)
    }
}

/// Is `x` a projection step (`.text`, `.target`, `.level`) rather than
/// an element category?
pub open spec fn is_projection(x: BuiltinExtractor) -> bool {
    x is Text || x is Target || x is Level
}

/// One selector step applied to one value: projections turn the value
/// into a scalar; category steps extract the matching strict
/// descendants of a structural reference, and reject any value that is
/// not one.
pub open spec fn step_on_value(doc: Seq<NodeModel>, x: BuiltinExtractor, v: ValModel) -> Result<
    Seq<ValModel>,
    (),
> {
    match x {
        BuiltinExtractor::Text => Ok(seq![ValModel::String(text_of(v))]),
        BuiltinExtractor::Target => match v {
            ValModel::Node(e) => Ok(seq![ValModel::String(e.target)]),
            _ => Err(()),
        },
        BuiltinExtractor::Level => match v {
            ValModel::Node(e) => if e.kind == NodeKind::Heading {
                Ok(seq![ValModel::Number(e.level)])
            } else {
                Err(())
            },
            _ => Err(()),
        },
        _ => match v {
            ValModel::Node(e) => if 0 <= e.id < doc.len() {
                Ok(match_vals(doc, x, e.id + 1, doc[e.id].end))
            } else {
                Err(())
            },
            _ => Err(()),
        },
    }
}

/// One selector step applied to a whole value set: the per-value
/// results concatenated in order, or the first type failure.
pub open spec fn step_on_values(doc: Seq<NodeModel>, x: BuiltinExtractor, vs: Seq<ValModel>) -> Result<
    Seq<ValModel>,
    (),
>
    decreases vs.len(),
{
    if vs.len() == 0 {
        Ok(Seq::empty())
    } else {
        match step_on_value(doc, x, vs[0]) {
            Ok(head) => match step_on_values(doc, x, vs.drop_first()) {
                Ok(tail) => Ok(head + tail),
                Err(()) => Err(()),
            },
            Err(()) => Err(()),
        }
    }
}

/// A type error at `span`.
pub open spec fn type_err(span: Span) -> ErrModel {
    ErrModel { kind: ErrKindModel::TypeError, span: Some(span) }
}

/// The placeholder outcome for operations the built-in specification
/// does not cover (externally implemented names); `Engine::execute`
/// promises nothing of the result in that case.
pub open spec fn external_err() -> ErrModel {
    ErrModel { kind: ErrKindModel::EvalError(Seq::empty()), span: None }
}

/// A whole selector path applied to the current set, step by step.
pub open spec fn spec_sel_parts(
    doc: Seq<NodeModel>,
    reg: RegModel,
    parts: Seq<SelPartModel>,
    vs: Seq<ValModel>,
) -> Result<Seq<ValModel>, ErrModel>
    decreases parts.len(),
{
    if parts.len() == 0 {
        Ok(vs)
    } else {
        match reg_ext(reg, parts[0].name) {
            Some(ExtractorImpl::Builtin(x)) => match step_on_values(doc, x, vs) {
                Ok(vs2) => spec_sel_parts(doc, reg, parts.drop_first(), vs2),
                Err(()) => Err(type_err(parts[0].span)),
            },
            _ => Err(external_err()),
        }
    }
}

/// The value of a literal.
pub open spec fn lit_val(l: LitModel) -> ValModel {
    match l {
        LitModel::Str(s) => ValModel::String(s),
        LitModel::Num(n) => ValModel::Number(n),
        LitModel::Bool(b) => ValModel::Bool(b),
    }
}

/// The single value an argument expression contributes: its result if
/// it produced exactly one value, else the list of what it produced.
pub open spec fn collapse(rs: Seq<ValModel>) -> ValModel {
    if rs.len() == 1 {
        rs[0]
    } else {
        ValModel::List(rs)
    }
}

/// The textual projections of a value sequence, index by index.
pub open spec fn texts_of_vals(vs: Seq<ValModel>) -> Seq<Seq<char>> {
    Seq::new(vs.len(), |i: int| text_of(vs[i]))
}

/// The length of a value set as a `Number`, saturating at the number
/// type's maximum.
pub open spec fn count_val(n: nat) -> int {
    if n > i64::MAX {
        i64::MAX as int
    } else {
        n as int
    }
}

/// What a built-in function produces from the evaluated arguments
/// `avs` and the current set `vs`. `Upper`, `Lower` and `Trim` map the
/// textual projection of each current value; `Count`, `First`, `Last`
/// and `Join` reduce the whole set. None of them fails.
pub open spec fn apply_builtin(b: BuiltinFn, avs: Seq<ValModel>, vs: Seq<ValModel>) -> Seq<
    ValModel,
> {
    match b {
        BuiltinFn::Upper => Seq::new(
            vs.len(),
            |i: int| ValModel::String(upper_of(text_of(vs[i]))),
        ),
        BuiltinFn::Lower => Seq::new(
            vs.len(),
            |i: int| ValModel::String(lower_of(text_of(vs[i]))),
        ),
        BuiltinFn::Trim => Seq::new(vs.len(), |i: int| ValModel::String(trim_of(text_of(vs[i])))),
        BuiltinFn::Count => seq![ValModel::Number(count_val(vs.len()))],
        BuiltinFn::First => if vs.len() > 0 {
            seq![vs[0]]
        } else {
            Seq::empty()
        },
        BuiltinFn::Last => if vs.len() > 0 {
            seq![vs.last()]
        } else {
            Seq::empty()
        },
        BuiltinFn::Join => seq![
            ValModel::String(
                join_with(
                    texts_of_vals(vs),
                    if avs.len() > 0 {
                        text_of(avs[0])
                    } else {
                        ","@
                    },
                ),
            ),
        ],
    }
}

/// Evaluate one expression against the current set `vs`: a selector
/// path walks the document; a literal contributes its value; a call
/// evaluates its arguments against the same `vs` and applies the
/// resolved function.
pub open spec fn spec_eval_expr(
    doc: Seq<NodeModel>,
    reg: RegModel,
    e: ExprModel,
    vs: Seq<ValModel>,
) -> Result<Seq<ValModel>, ErrModel>
    decreases e,
{
    match e {
        ExprModel::Selector { parts, .. } => spec_sel_parts(doc, reg, parts, vs),
        ExprModel::Literal { lit, .. } => Ok(seq![lit_val(lit)]),
        ExprModel::Call { name, args, .. } => match spec_eval_args(doc, reg, args, vs) {
            Ok(avs) => match reg_fn(reg, name) {
                Some(f) => match f.body {
                    FnImpl::Builtin(b) => Ok(apply_builtin(b, avs, vs)),
                    FnImpl::External => Err(external_err()),
                },
                None => Err(external_err()),
            },
            Err(e2) => Err(e2),
        },
    }
}

/// Evaluate each argument expression against the same current set, in
/// order, collapsing each to one value; the first failure aborts.
pub open spec fn spec_eval_args(
    doc: Seq<NodeModel>,
    reg: RegModel,
    args: Seq<ExprModel>,
    vs: Seq<ValModel>,
) -> Result<Seq<ValModel>, ErrModel>
    decreases args,
{
    if args.len() == 0 {
        Ok(Seq::empty())
    } else {
        match spec_eval_expr(doc, reg, args[0], vs) {
            Ok(rs) => match spec_eval_args(doc, reg, args.drop_first(), vs) {
                Ok(rest) => Ok(seq![collapse(rs)] + rest),
                Err(e2) => Err(e2),
            },
            Err(e2) => Err(e2),
        }
    }
}

/// Run the stages in order, each consuming what the one before
/// produced.
pub open spec fn spec_eval_stages(
    doc: Seq<NodeModel>,
    reg: RegModel,
    stages: Seq<ExprModel>,
    vs: Seq<ValModel>,
) -> Result<Seq<ValModel>, ErrModel>
    decreases stages.len(),
{
    if stages.len() == 0 {
        Ok(vs)
    } else {
        match spec_eval_expr(doc, reg, stages[0], vs) {
            Ok(vs2) => spec_eval_stages(doc, reg, stages.drop_first(), vs2),
            Err(e2) => Err(e2),
        }
    }
}

/// The initial current set: the whole document as its root reference.
pub open spec fn init_vals(doc: Seq<NodeModel>) -> Seq<ValModel> {
    seq![ValModel::Node(elem_of(doc, 0))]
}

// ---------------------------------------------------------------------------
// Up-front validation: names and arities, before any document access.

/// The validation failure of a selector path, if any: the first step
/// naming no registered extractor.
pub open spec fn validate_parts(reg: RegModel, parts: Seq<SelPartModel>) -> Option<ErrModel>
    decreases parts.len(),
{
    if parts.len() == 0 {
        None
    } else if reg_ext(reg, parts[0].name) is None {
        Some(
            ErrModel {
                kind: ErrKindModel::UnknownSelector(parts[0].name),
                span: Some(parts[0].span),
            },
        )
    } else {
        validate_parts(reg, parts.drop_first())
    }
}

/// The validation failure of one expression, if any: an unregistered
/// selector step or function name, or an argument count outside the
/// declared arity range; otherwise the first failure inside the
/// arguments.
pub open spec fn validate_expr(reg: RegModel, e: ExprModel) -> Option<ErrModel>
    decreases e,
{
    match e {
        ExprModel::Selector { parts, .. } => validate_parts(reg, parts),
        ExprModel::Literal { .. } => None,
        ExprModel::Call { name, name_span, args, span } => match reg_fn(reg, name) {
            None => Some(
                ErrModel { kind: ErrKindModel::UnknownFunction(name), span: Some(name_span) },
            ),
            Some(f) => {
                if !arity_admits(f.arity, args.len() as int) {
                    Some(
                        ErrModel {
                            kind: ErrKindModel::ArityError {
                                min: f.arity.min,
                                max: f.arity.max,
                                got: args.len() as int,
                            },
                            span: Some(span),
                        },
                    )
                } else {
                    validate_exprs(reg, args)
                }
            },
        },
    }
}

/// Does an arity range admit `n` arguments?
pub open spec fn arity_admits(a: ArityModel, n: int) -> bool {
    a.min <= n && match a.max {
        Some(m) => n <= m,
        None => true,
    }
}

/// The first validation failure among the expressions, if any.
pub open spec fn validate_exprs(reg: RegModel, es: Seq<ExprModel>) -> Option<ErrModel>
    decreases es,
{
    if es.len() == 0 {
        None
    } else {
        match validate_expr(reg, es[0]) {
            Some(e2) => Some(e2),
            None => validate_exprs(reg, es.drop_first()),
        }
    }
}

/// The first validation failure of a whole query, if any, walking the
/// stages and their argument trees in order.
pub open spec fn spec_validate(reg: RegModel, stages: Seq<ExprModel>) -> Option<ErrModel> {
    validate_exprs(reg, stages)
}

// ---------------------------------------------------------------------------
// Which queries the built-in specification covers.

/// Does every name of this selector path resolve to a built-in?
pub open spec fn parts_all_builtin(reg: RegModel, parts: Seq<SelPartModel>) -> bool
    decreases parts.len(),
{
    if parts.len() == 0 {
        true
    } else {
        reg_ext(reg, parts[0].name) matches Some(ExtractorImpl::Builtin(_)) && parts_all_builtin(
            reg,
            parts.drop_first(),
        )
    }
}

/// Does every name of this expression resolve to a built-in?
pub open spec fn expr_all_builtin(reg: RegModel, e: ExprModel) -> bool
    decreases e,
{
    match e {
        ExprModel::Selector { parts, .. } => parts_all_builtin(reg, parts),
        ExprModel::Literal { .. } => true,
        ExprModel::Call { name, args, .. } => (reg_fn(reg, name) matches Some(f)
            && f.body matches FnImpl::Builtin(_)) && exprs_all_builtin(reg, args),
    }
}

/// Does every name of these expressions resolve to a built-in?
pub open spec fn exprs_all_builtin(reg: RegModel, es: Seq<ExprModel>) -> bool
    decreases es,
{
    if es.len() == 0 {
        true
    } else {
        expr_all_builtin(reg, es[0]) && exprs_all_builtin(reg, es.drop_first())
    }
}

/// Does every name of the query resolve to a built-in?
pub open spec fn all_builtin(reg: RegModel, stages: Seq<ExprModel>) -> bool {
    exprs_all_builtin(reg, stages)
}

/// The full specification of query execution over the built-in
/// operations: validate every stage name and arity up front, then
/// thread the current value set through the stages, starting from the
/// document's root reference.
pub open spec fn spec_execute(doc: Seq<NodeModel>, reg: RegModel, stages: Seq<ExprModel>) -> Result<
    Seq<ValModel>,
    ErrModel,
> {
    match spec_validate(reg, stages) {
        Some(e) => Err(e),
        None => spec_eval_stages(doc, reg, stages, init_vals(doc)),
    }
}

// ---------------------------------------------------------------------------
// Executable evaluation.

/// The value of a literal.
fn lit_value(l: &Lit) -> (v: Value)
    ensures
        v@ == lit_val(l@),
{
    match l {
        Lit::Str(s) => Value::String(s.clone()),
        Lit::Num(n) => Value::Number(*n),
        Lit::Bool(b) => Value::Bool(*b),
    }
}

/// The structural reference to node `j`.
fn elem_value(doc: &Document, j: usize) -> (v: Value)
    requires
        j < doc@.len(),
    ensures
        v@ == ValModel::Node(elem_of(doc@, j as int)),
{
    let n = doc.node(j);
    Value::Node(
        ElemRef {
            id: j,
            kind: n.kind,
            level: n.level,
            text: n.text.clone(),
            target: n.target.clone(),
        },
    )
}

/// Does the node belong to the extractor's category?
fn kind_matches_x(x: BuiltinExtractor, n: &Node) -> (r: bool)
    ensures
        r == kind_matches(x, n@),
{
    match x {
        BuiltinExtractor::Heading(l) => matches!(n.kind, NodeKind::Heading) && n.level == l,
        BuiltinExtractor::AnyHeading => matches!(n.kind, NodeKind::Heading),
        BuiltinExtractor::Paragraph => matches!(n.kind, NodeKind::Paragraph),
        BuiltinExtractor::Link => matches!(n.kind, NodeKind::Link),
        BuiltinExtractor::Table => matches!(n.kind, NodeKind::Table),
        BuiltinExtractor::CodeBlock => matches!(n.kind, NodeKind::CodeBlock),
        BuiltinExtractor::Text => false,
        BuiltinExtractor::Target => false,
        BuiltinExtractor::Level => false,
    }
}

/// Appending one value extends the models by its model.
pub proof fn lemma_val_models_push(s: Seq<Value>, v: Value)
    ensures
        val_models(s.push(v)) == val_models(s).push(val_model(v)),
{
    lemma_val_models_index(s.push(v));
    lemma_val_models_index(s);
    assert(val_models(s.push(v)) =~= val_models(s).push(val_model(v)));
}

/// One selector step applied to one value.
#[verifier::loop_isolation(false)]
fn step_value(doc: &Document, x: BuiltinExtractor, v: &Value) -> (r: Result<Vec<Value>, ()>)
    ensures
        match r {
            Ok(out) => step_on_value(doc@, x, v@) == Ok::<Seq<ValModel>, ()>(val_models(out@)),
            Err(()) => step_on_value(doc@, x, v@) == Err::<Seq<ValModel>, ()>(()),
        },
{
    match x {
        BuiltinExtractor::Text => {
            let t = v.to_text();
            let out = vec![Value::String(t)];
            proof {
                lemma_val_models_index(out@);
                assert(val_models(out@) =~= seq![ValModel::String(text_of(v@))]);
            }
            Ok(out)
        },
        BuiltinExtractor::Target => match v {
            Value::Node(e) => {
                let out = vec![Value::String(e.target.clone())];
                proof {
                    lemma_val_models_index(out@);
                    assert(val_models(out@) =~= seq![ValModel::String(e@.target)]);
                }
                Ok(out)
            },
            _ => Err(()),
        },
        BuiltinExtractor::Level => match v {
            Value::Node(e) => {
                if matches!(e.kind, NodeKind::Heading) {
                    let out = vec![Value::Number(e.level as i64)];
                    proof {
                        lemma_val_models_index(out@);
                        assert(val_models(out@) =~= seq![ValModel::Number(e@.level)]);
                    }
                    Ok(out)
                } else {
                    Err(())
                }
            },
            _ => Err(()),
        },
        _ => match v {
            Value::Node(e) => {
                if e.id < doc.len() {
                    proof {
                        use_type_invariant(doc);
                    }
                    let hi = doc.node(e.id).end;
                    let mut out: Vec<Value> = Vec::new();
                    let mut j: usize = e.id + 1;
                    let ghost lo0 = j as int;
                    proof {
                        assert(val_models(out@) =~= Seq::<ValModel>::empty());
                        assert(Seq::<ValModel>::empty() + match_vals(doc@, x, lo0, hi as int)
                            =~= match_vals(doc@, x, lo0, hi as int));
                    }
                    while j < hi
                        invariant
                            lo0 <= j <= hi,
                            hi == doc@[e.id as int].end,
                            e.id < doc@.len(),
                            val_models(out@) + match_vals(doc@, x, j as int, hi as int)
                                == match_vals(doc@, x, lo0, hi as int),
                        decreases hi - j,
                    {
                        if kind_matches_x(x, doc.node(j)) {
                            let nv = elem_value(doc, j);
                            proof {
                                lemma_val_models_push(out@, nv);
                                assert(val_models(out@).push(val_model(nv)) + match_vals(
                                    doc@,
                                    x,
                                    j + 1 as int,
                                    hi as int,
                                ) =~= val_models(out@) + (seq![ValModel::Node(elem_of(doc@, j as int))]
                                    + match_vals(doc@, x, j + 1 as int, hi as int)));
                            }
                            out.push(nv);
                        }
                        j += 1;
                    }
                    proof {
                        assert(match_vals(doc@, x, j as int, hi as int) =~= Seq::<ValModel>::empty());
                        assert(val_models(out@) + Seq::<ValModel>::empty() =~= val_models(out@));
                    }
                    Ok(out)
                } else {
                    Err(())
                }
            },
            _ => Err(()),
        },
    }
}

/// One selector step applied to a whole value set.
#[verifier::loop_isolation(false)]
fn step_values(doc: &Document, x: BuiltinExtractor, vs: &Vec<Value>) -> (r: Result<Vec<Value>, ()>)
    ensures
        match r {
            Ok(out) => step_on_values(doc@, x, val_models(vs@)) == Ok::<Seq<ValModel>, ()>(
                val_models(out@),
            ),
            Err(()) => step_on_values(doc@, x, val_models(vs@)) == Err::<Seq<ValModel>, ()>(()),
        },
{
    let ghost vms = val_models(vs@);
    proof {
        lemma_val_models_index(vs@);
    }
    let mut out: Vec<Value> = Vec::new();
    let mut i: usize = 0;
    proof {
        assert(vms.skip(0) =~= vms);
        assert(val_models(out@) =~= Seq::<ValModel>::empty());
        assert forall|tail: Seq<ValModel>| val_models(out@) + tail =~= tail by {}
    }
    while i < vs.len()
        invariant
            i <= vs@.len(),
            vms == val_models(vs@),
            vms.len() == vs@.len(),
            forall|k: int| 0 <= k < vs@.len() ==> vms[k] == #[trigger] vs@[k]@,
            forall|tail: Seq<ValModel>|
                step_on_values(doc@, x, vms.skip(i as int)) == Ok::<Seq<ValModel>, ()>(tail)
                    ==> step_on_values(doc@, x, vms) == Ok::<Seq<ValModel>, ()>(
                    val_models(out@) + tail,
                ),
            step_on_values(doc@, x, vms.skip(i as int)) is Err ==> step_on_values(doc@, x, vms)
                is Err,
        decreases vs@.len() - i,
    {
        let sr = step_value(doc, x, &vs[i]);
        proof {
            assert(vms.skip(i as int)[0] == vms[i as int]);
            assert(vms.skip(i as int).drop_first() =~= vms.skip(i + 1 as int));
        }
        match sr {
            Ok(head) => {
                let ghost old_out = out@;
                let ghost head0 = head@;
                let mut head = head;
                out.append(&mut head);
                proof {
                    lemma_val_models_index(old_out);
                    lemma_val_models_index(out@);
                    lemma_val_models_index(head0);
                    assert(out@ =~= old_out + head0);
                    assert forall|k: int| 0 <= k < out@.len() implies val_models(out@)[k]
                        == (val_models(old_out) + val_models(head0))[k] by {
                        if k < old_out.len() {
                            assert(out@[k] == old_out[k]);
                        } else {
                            assert(out@[k] == head0[k - old_out.len()]);
                        }
                    }
                    assert(val_models(out@) =~= val_models(old_out) + val_models(head0));
                    assert forall|tail: Seq<ValModel>|
                        (val_models(old_out) + val_models(head0)) + tail =~= val_models(old_out)
                            + (val_models(head0) + tail) by {}
                }
                i += 1;
            },
            Err(()) => {
                return Err(());
            },
        }
    }
    proof {
        assert(vms.skip(vms.len() as int) =~= Seq::<ValModel>::empty());
        assert(val_models(out@) + Seq::<ValModel>::empty() =~= val_models(out@));
    }
    Ok(out)
}


/// The single value an argument expression contributes.
fn collapse_x(rs: Vec<Value>) -> (v: Value)
    ensures
        v@ == collapse(val_models(rs@)),
{
    proof {
        lemma_val_models_index(rs@);
    }
    if rs.len() == 1 {
        let ghost rs0 = rs@;
        let mut rs = rs;
        let v = rs.pop().unwrap();
        proof {
            assert(val_models(rs0)[0] == v@);
        }
        v
    } else {
        Value::List(rs)
    }
}

/// A deep copy of a value set.
fn dup_values(vs: &Vec<Value>) -> (r: Vec<Value>)
    ensures
        val_models(r@) == val_models(vs@),
{
    let mut r: Vec<Value> = Vec::new();
    let mut i: usize = 0;
    while i < vs.len()
        invariant
            i <= vs@.len(),
            r@.len() == i,
            forall|k: int| 0 <= k < i ==> #[trigger] r@[k]@ == vs@[k]@,
        decreases vs@.len() - i,
    {
        let d = vs[i].duplicate();
        r.push(d);
        i += 1;
    }
    proof {
        lemma_val_models_index(r@);
        lemma_val_models_index(vs@);
        assert forall|k: int| 0 <= k < vs@.len() implies val_models(r@)[k] == val_models(vs@)[k] by {
            assert(r@[k]@ == vs@[k]@);
        }
        assert(val_models(r@) =~= val_models(vs@));
    }
    r
}

/// What a built-in function produces.
#[verifier::loop_isolation(false)]
#[verifier::rlimit(60)]
fn apply_builtin_x(b: BuiltinFn, avs: &Vec<Value>, vs: &Vec<Value>) -> (r: Vec<Value>)
    ensures
        val_models(r@) == apply_builtin(b, val_models(avs@), val_models(vs@)),
{
    let ghost vms = val_models(vs@);
    proof {
        lemma_val_models_index(vs@);
        lemma_val_models_index(avs@);
    }
    match b {
        BuiltinFn::Upper | BuiltinFn::Lower | BuiltinFn::Trim => {
            let mut out: Vec<Value> = Vec::new();
            let mut i: usize = 0;
            while i < vs.len()
                invariant
                    i <= vs@.len(),
                    out@.len() == i,
                    forall|k: int| 0 <= k < i ==> #[trigger] out@[k]@ == apply_builtin(
                        b,
                        val_models(avs@),
                        vms,
                    )[k],
                decreases vs@.len() - i,
            {
                proof {
                    assert(vms[i as int] == vs@[i as int]@);
                }
                let t = vs[i].to_text();
                let s2: String = match b {
                    BuiltinFn::Upper => uppercase(t.as_str()),
                    BuiltinFn::Lower => lowercase(t.as_str()),
                    _ => trim_text(&t),
                };
                out.push(Value::String(s2));
                i += 1;
            }
            proof {
                lemma_val_models_index(out@);
                assert forall|k: int| 0 <= k < out@.len() implies val_models(out@)[k]
                    == apply_builtin(b, val_models(avs@), vms)[k] by {
                    assert(out@[k]@ == apply_builtin(b, val_models(avs@), vms)[k]);
                }
                assert(val_models(out@) =~= apply_builtin(b, val_models(avs@), vms));
            }
            out
        },
        BuiltinFn::Count => {
            let n = vs.len();
            let c: i64 = if (n as u64) > (i64::MAX as u64) {
                i64::MAX
            } else {
                n as i64
            };
            let out = vec![Value::Number(c)];
            proof {
                lemma_val_models_index(out@);
                assert(vms.len() == vs@.len());
                assert(out@[0]@ == ValModel::Number(count_val(vms.len())));
                assert(val_models(out@) =~= seq![ValModel::Number(count_val(vms.len()))]);
            }
            out
        },
        BuiltinFn::First => {
            if vs.len() > 0 {
                let out = vec![vs[0].duplicate()];
                proof {
                    lemma_val_models_index(out@);
                    assert(out@[0]@ == vms[0]);
                    assert(val_models(out@) =~= seq![vms[0]]);
                }
                out
            } else {
                let out: Vec<Value> = Vec::new();
                proof {
                    lemma_val_models_index(out@);
                    assert(val_models(out@) =~= Seq::<ValModel>::empty());
                }
                out
            }
        },
        BuiltinFn::Last => {
            if vs.len() > 0 {
                let out = vec![vs[vs.len() - 1].duplicate()];
                proof {
                    lemma_val_models_index(out@);
                    assert(out@[0]@ == vms.last());
                    assert(val_models(out@) =~= seq![vms.last()]);
                }
                out
            } else {
                let out: Vec<Value> = Vec::new();
                proof {
                    lemma_val_models_index(out@);
                    assert(val_models(out@) =~= Seq::<ValModel>::empty());
                }
                out
            }
        },
        BuiltinFn::Join => {
            let sep: String = if avs.len() > 0 {
                avs[0].to_text()
            } else {
                String::from_str(",")
            };
            let ghost sepm = if val_models(avs@).len() > 0 {
                text_of(val_models(avs@)[0])
            } else {
                ","@
            };
            proof {
                assert(sep@ == sepm);
            }
            let mut joined = String::new();
            let mut i: usize = 0;
            let ghost texts = texts_of_vals(vms);
            proof {
                assert(join_with(texts.take(0), sepm) =~= Seq::<char>::empty());
                assert(joined@ =~= join_with(texts.take(0), sepm));
            }
            while i < vs.len()
                invariant
                    i <= vs@.len(),
                    sep@ == sepm,
                    texts == texts_of_vals(vms),
                    texts.len() == vs@.len(),
                    joined@ == join_with(texts.take(i as int), sepm),
                decreases vs@.len() - i,
            {
                if i > 0 {
                    joined.append(sep.as_str());
                }
                proof {
                    assert(vms[i as int] == vs@[i as int]@);
                }
                let t = vs[i].to_text();
                joined.append(t.as_str());
                proof {
                    lemma_join_with_push(texts.take(i as int), texts[i as int], sepm);
                    assert(texts.take(i as int).push(texts[i as int]) =~= texts.take(i + 1 as int));
                }
                i += 1;
            }
            proof {
                assert(texts.take(vs@.len() as int) =~= texts);
            }
            let out = vec![Value::String(joined)];
            proof {
                lemma_val_models_index(out@);
                assert(val_models(out@) =~= apply_builtin(b, val_models(avs@), vms));
            }
            out
        },
    }
}

// ---------------------------------------------------------------------------
// Executable validation.

/// Check every step of a selector path against the registry.
#[verifier::loop_isolation(false)]
fn validate_parts_x<X>(reg: &Registry<X>, parts: &Vec<SelPart>) -> (r: Option<QueryError>)
    ensures
        match r {
            Some(e) => validate_parts(reg@, part_models(parts@)) == Some(e@),
            None => validate_parts(reg@, part_models(parts@)) == None::<ErrModel>,
        },
{
    let ghost pm = part_models(parts@);
    let mut i: usize = 0;
    proof {
        assert(pm.skip(0) =~= pm);
    }
    while i < parts.len()
        invariant
            i <= parts@.len(),
            pm.len() == parts@.len(),
            validate_parts(reg@, pm) == validate_parts(reg@, pm.skip(i as int)),
        decreases parts@.len() - i,
    {
        proof {
            assert(pm.skip(i as int)[0] == pm[i as int]);
            assert(pm[i as int] == parts@[i as int]@);
            assert(pm.skip(i as int).drop_first() =~= pm.skip(i + 1 as int));
        }
        let found = reg.lookup_extractor(parts[i].name.as_str());
        if found.is_none() {
            let e = QueryError::at(
                QueryErrorKind::UnknownSelector(parts[i].name.clone()),
                parts[i].span,
            );
            return Some(e);
        }
        i += 1;
    }
    proof {
        assert(pm.skip(parts@.len() as int) =~= Seq::<SelPartModel>::empty());
    }
    None
}

/// Check one expression: selector steps and function names must be
/// registered, and argument counts must lie in the declared range.
#[verifier::loop_isolation(false)]
fn validate_expr_x<X>(reg: &Registry<X>, e: &Expr) -> (r: Option<QueryError>)
    ensures
        match r {
            Some(err) => validate_expr(reg@, e@) == Some(err@),
            None => validate_expr(reg@, e@) == None::<ErrModel>,
        },
    decreases e,
{
    match e {
        Expr::Selector { parts, .. } => validate_parts_x(reg, parts),
        Expr::Literal { .. } => None,
        Expr::Call { name, name_span, args, span } => {
            let found = reg.lookup_function(name.as_str());
            let f = match found {
                None => {
                    let err = QueryError::at(
                        QueryErrorKind::UnknownFunction(name.clone()),
                        *name_span,
                    );
                    return Some(err);
                },
                Some(f) => f,
            };
            proof {
                lemma_expr_models_index(args@);
            }
            if !f.arity.admits(args.len()) {
                let err = QueryError::at(
                    QueryErrorKind::ArityError {
                        min: f.arity.min,
                        max: f.arity.max,
                        got: args.len(),
                    },
                    *span,
                );
                return Some(err);
            }
            let ghost am = expr_models(args@);
            proof {
                lemma_expr_models_index(args@);
                assert(am.skip(0) =~= am);
            }
            let mut i: usize = 0;
            while i < args.len()
                invariant
                    i <= args@.len(),
                    am.len() == args@.len(),
                    validate_exprs(reg@, am) == validate_exprs(reg@, am.skip(i as int)),
                decreases args@.len() - i, 0int,
            {
                proof {
                    broadcast use vstd::std_specs::vec::axiom_vec_decreases_to_view;
                    broadcast use vstd::seq::axiom_seq_index_decreases;

                    assert(decreases_to!(*e => *args));
                    assert(decreases_to!(*args => args@));
                    assert(decreases_to!(args@ => args@[i as int]));
                    assert(am.skip(i as int)[0] == am[i as int]);
                    assert(am[i as int] == args@[i as int]@);
                    assert(am.skip(i as int).drop_first() =~= am.skip(i + 1 as int));
                }
                let sub = validate_expr_x(reg, &args[i]);
                if let Some(err) = sub {
                    return Some(err);
                }
                i += 1;
            }
            proof {
                assert(am.skip(args@.len() as int) =~= Seq::<ExprModel>::empty());
            }
            None
        },
    }
}

// ---------------------------------------------------------------------------
// Index views of the all-builtin predicates.

/// Each element of an all-builtin expression sequence is all-builtin.
pub proof fn lemma_exprs_all_builtin_index(reg: RegModel, es: Seq<ExprModel>, i: int)
    requires
        exprs_all_builtin(reg, es),
        0 <= i < es.len(),
    ensures
        expr_all_builtin(reg, es[i]),
    decreases i,
{
    if i > 0 {
        lemma_exprs_all_builtin_index(reg, es.drop_first(), i - 1);
        assert(es.drop_first()[i - 1] == es[i]);
    }
}

// ---------------------------------------------------------------------------
// The engine.

/// A reusable evaluator: a read-only view of the document under query
/// and the registry resolving stage names.
pub struct Engine<'a, X> {
    pub doc: &'a Document,
    pub registry: Registry<X>,
}

impl<'a> Engine<'a, NoExtension> {
    /// An engine over the default built-in registry.
    pub fn new(doc: &'a Document) -> (e: Engine<'a, NoExtension>)
        ensures
            e.doc == doc,
            e.registry@.functions == crate::query::registry::builtin_functions(),
            e.registry@.extractors == crate::query::registry::builtin_extractors(),
    {
        Engine { doc, registry: Registry::with_builtins() }
    }
}

impl<'a, X: Extension> Engine<'a, X> {
    /// An engine over a custom registry.
    pub fn with_registry(doc: &'a Document, registry: Registry<X>) -> (e: Engine<'a, X>)
        ensures
            e.doc == doc,
            e.registry@ == registry@,
    {
        Engine { doc, registry }
    }

    /// Apply a whole selector path to the current set, step by step.
    #[verifier::loop_isolation(false)]
    fn eval_parts(&self, parts: &Vec<SelPart>, vs: Vec<Value>) -> (r: Result<
        Vec<Value>,
        QueryError,
    >)
        ensures
            parts_all_builtin(self.registry@, part_models(parts@)) ==> match r {
                Ok(out) => spec_sel_parts(
                    self.doc@,
                    self.registry@,
                    part_models(parts@),
                    val_models(vs@),
                ) == Ok::<Seq<ValModel>, ErrModel>(val_models(out@)),
                Err(e) => spec_sel_parts(
                    self.doc@,
                    self.registry@,
                    part_models(parts@),
                    val_models(vs@),
                ) == Err::<Seq<ValModel>, ErrModel>(e@),
            },
    {
        let ghost pm = part_models(parts@);
        let ghost init = val_models(vs@);
        let mut cur = vs;
        let mut i: usize = 0;
        proof {
            assert(pm.skip(0) =~= pm);
        }
        while i < parts.len()
            invariant
                i <= parts@.len(),
                pm.len() == parts@.len(),
                parts_all_builtin(self.registry@, pm) ==> spec_sel_parts(
                    self.doc@,
                    self.registry@,
                    pm,
                    init,
                ) == spec_sel_parts(
                    self.doc@,
                    self.registry@,
                    pm.skip(i as int),
                    val_models(cur@),
                ),
            decreases parts@.len() - i,
        {
            proof {
                assert(pm.skip(i as int)[0] == pm[i as int]);
                assert(pm[i as int] == parts@[i as int]@);
                assert(pm.skip(i as int).drop_first() =~= pm.skip(i + 1 as int));
                if parts_all_builtin(self.registry@, pm) {
                    lemma_parts_all_builtin_index(self.registry@, pm, i as int);
                }
            }
            let found = reg_lookup_part(&self.registry, &parts[i]);
            match found {
                Some(ExtractorImpl::Builtin(x)) => {
                    let stepped = step_values(self.doc, x, &cur);
                    match stepped {
                        Ok(nv) => {
                            cur = nv;
                        },
                        Err(()) => {
                            let e = QueryError::at(QueryErrorKind::TypeError, parts[i].span);
                            return Err(e);
                        },
                    }
                },
                Some(ExtractorImpl::External) => {
                    let ctx = EvalContext { doc: self.doc };
                    let mut out: Vec<Value> = Vec::new();
                    let mut k: usize = 0;
                    while k < cur.len()
                        decreases cur@.len() - k,
                    {
                        let got = self.registry.extension().extract(parts[i].name.as_str(), &ctx);
                        match got {
                            Ok(mut ys) => {
                                out.append(&mut ys);
                            },
                            Err(e) => {
                                return Err(e);
                            },
                        }
                        k += 1;
                    }
                    cur = out;
                },
                None => {
                    let e = QueryError::at(
                        QueryErrorKind::UnknownSelector(parts[i].name.clone()),
                        parts[i].span,
                    );
                    return Err(e);
                },
            }
            i += 1;
        }
        proof {
            assert(pm.skip(parts@.len() as int) =~= Seq::<SelPartModel>::empty());
        }
        Ok(cur)
    }

    /// Evaluate one expression against the current set.
    #[verifier::loop_isolation(false)]
    fn eval_expr(&self, e: &Expr, vs: &Vec<Value>) -> (r: Result<Vec<Value>, QueryError>)
        ensures
            expr_all_builtin(self.registry@, e@) ==> match r {
                Ok(out) => spec_eval_expr(self.doc@, self.registry@, e@, val_models(vs@)) == Ok::<
                    Seq<ValModel>,
                    ErrModel,
                >(val_models(out@)),
                Err(err) => spec_eval_expr(self.doc@, self.registry@, e@, val_models(vs@)) == Err::<
                    Seq<ValModel>,
                    ErrModel,
                >(err@),
            },
        decreases e, 1int,
    {
        match e {
            Expr::Selector { parts, .. } => {
                let dup = dup_values(vs);
                self.eval_parts(parts, dup)
            },
            Expr::Literal { lit, .. } => {
                let out = vec![lit_value(lit)];
                proof {
                    lemma_val_models_index(out@);
                    assert(val_models(out@) =~= seq![lit_val(lit@)]);
                }
                Ok(out)
            },
            Expr::Call { name, name_span, args, span } => {
                proof {
                    assert(decreases_to!(*e => *args));
                }
                let avsr = self.eval_args(args, vs);
                let avs = match avsr {
                    Ok(a) => a,
                    Err(err) => {
                        return Err(err);
                    },
                };
                let found = self.registry.lookup_function(name.as_str());
                match found {
                    None => {
                        let err = QueryError::at(
                            QueryErrorKind::UnknownFunction(name.clone()),
                            *name_span,
                        );
                        Err(err)
                    },
                    Some(f) => match f.body {
                        FnImpl::Builtin(b) => {
                            let out = apply_builtin_x(b, &avs, vs);
                            Ok(out)
                        },
                        FnImpl::External => {
                            let ctx = EvalContext { doc: self.doc };
                            let mut out: Vec<Value> = Vec::new();
                            let mut k: usize = 0;
                            while k < vs.len()
                                decreases vs@.len() - k,
                            {
                                let mut args2: Vec<Value> = Vec::new();
                                args2.push(vs[k].duplicate());
                                let mut j: usize = 0;
                                while j < avs.len()
                                    decreases avs@.len() - j,
                                {
                                    args2.push(avs[j].duplicate());
                                    j += 1;
                                }
                                let got = self.registry.extension().call(
                                    name.as_str(),
                                    &args2,
                                    &ctx,
                                );
                                match got {
                                    Ok(mut ys) => {
                                        out.append(&mut ys);
                                    },
                                    Err(err) => {
                                        return Err(err);
                                    },
                                }
                                k += 1;
                            }
                            Ok(out)
                        },
                    },
                }
            },
        }
    }

    /// Evaluate each argument expression against the same current set.
    #[verifier::loop_isolation(false)]
    fn eval_args(&self, args: &Vec<Expr>, vs: &Vec<Value>) -> (r: Result<Vec<Value>, QueryError>)
        ensures
            exprs_all_builtin(self.registry@, expr_models(args@)) ==> match r {
                Ok(out) => spec_eval_args(
                    self.doc@,
                    self.registry@,
                    expr_models(args@),
                    val_models(vs@),
                ) == Ok::<Seq<ValModel>, ErrModel>(val_models(out@)),
                Err(err) => spec_eval_args(
                    self.doc@,
                    self.registry@,
                    expr_models(args@),
                    val_models(vs@),
                ) == Err::<Seq<ValModel>, ErrModel>(err@),
            },
        decreases args@, 0int,
    {
        let ghost am = expr_models(args@);
        let ghost reg = self.registry@;
        let ghost docm = self.doc@;
        let ghost vsm = val_models(vs@);
        proof {
            lemma_expr_models_index(args@);
            assert(am.skip(0) =~= am);
        }
        let mut out: Vec<Value> = Vec::new();
        let mut i: usize = 0;
        while i < args.len()
            invariant
                i <= args@.len(),
                am.len() == args@.len(),
                exprs_all_builtin(reg, am) ==> forall|tail: Seq<ValModel>|
                    spec_eval_args(docm, reg, am.skip(i as int), vsm) == Ok::<
                        Seq<ValModel>,
                        ErrModel,
                    >(tail) ==> spec_eval_args(docm, reg, am, vsm) == Ok::<
                        Seq<ValModel>,
                        ErrModel,
                    >(val_models(out@) + tail),
                exprs_all_builtin(reg, am) ==> forall|err2: ErrModel|
                    spec_eval_args(docm, reg, am.skip(i as int), vsm) == Err::<
                        Seq<ValModel>,
                        ErrModel,
                    >(err2) ==> spec_eval_args(docm, reg, am, vsm) == Err::<
                        Seq<ValModel>,
                        ErrModel,
                    >(err2),
            decreases args@.len() - i, 1int,
        {
            proof {
                broadcast use vstd::std_specs::vec::axiom_vec_decreases_to_view;
                broadcast use vstd::seq::axiom_seq_index_decreases;

                assert(decreases_to!(*args => args@));
                assert(decreases_to!(args@ => args@[i as int]));
                assert(am.skip(i as int)[0] == am[i as int]);
                assert(am[i as int] == args@[i as int]@);
                assert(am.skip(i as int).drop_first() =~= am.skip(i + 1 as int));
                if exprs_all_builtin(reg, am) {
                    lemma_exprs_all_builtin_index(reg, am, i as int);
                }
            }
            let sub = self.eval_expr(&args[i], vs);
            match sub {
                Ok(rs) => {
                    let ghost rsm = val_models(rs@);
                    let v = collapse_x(rs);
                    proof {
                        lemma_val_models_push(out@, v);
                        assert forall|tail: Seq<ValModel>|
                            val_models(out@) + (seq![collapse(rsm)] + tail) =~= val_models(
                                out@,
                            ).push(collapse(rsm)) + tail by {}
                    }
                    out.push(v);
                    i += 1;
                },
                Err(err) => {
                    return Err(err);
                },
            }
        }
        proof {
            assert(am.skip(args@.len() as int) =~= Seq::<ExprModel>::empty());
            assert(val_models(out@) + Seq::<ValModel>::empty() =~= val_models(out@));
        }
        Ok(out)
    }

    /// Execute a parsed query: check every stage name and arity up
    /// front, then thread the current value set through the stages,
    /// starting from the document's root reference. Whenever every
    /// name resolves to a built-in, the result is exactly
    /// `spec_execute`; validation failures are reported exactly in
    /// every case, and nothing is returned past a failing stage.
    #[verifier::loop_isolation(false)]
    pub fn execute(&self, q: &Query) -> (r: Result<Vec<Value>, QueryError>)
        ensures
            match r {
                Ok(vs) => spec_validate(self.registry@, q@) is None && (all_builtin(
                    self.registry@,
                    q@,
                ) ==> spec_execute(self.doc@, self.registry@, q@) == Ok::<
                    Seq<ValModel>,
                    ErrModel,
                >(val_models(vs@))),
                Err(e) => (spec_validate(self.registry@, q@) matches Some(ve) ==> ve == e@) && (
                all_builtin(self.registry@, q@) ==> spec_execute(self.doc@, self.registry@, q@)
                    == Err::<Seq<ValModel>, ErrModel>(e@)),
            },
            spec_validate(self.registry@, q@) is Some ==> r is Err,
    {
        let ghost sm = q@;
        let ghost reg = self.registry@;
        let ghost docm = self.doc@;
        proof {
            lemma_expr_models_index(q.stages@);
            assert(sm.skip(0) =~= sm);
        }
        // Validate every stage before touching the document.
        let mut i: usize = 0;
        while i < q.stages.len()
            invariant
                i <= q.stages@.len(),
                sm.len() == q.stages@.len(),
                validate_exprs(reg, sm) == validate_exprs(reg, sm.skip(i as int)),
            decreases q.stages@.len() - i,
        {
            proof {
                assert(sm.skip(i as int)[0] == sm[i as int]);
                assert(sm[i as int] == q.stages@[i as int]@);
                assert(sm.skip(i as int).drop_first() =~= sm.skip(i + 1 as int));
            }
            let sub = validate_expr_x(&self.registry, &q.stages[i]);
            if let Some(err) = sub {
                return Err(err);
            }
            i += 1;
        }
        proof {
            assert(sm.skip(q.stages@.len() as int) =~= Seq::<ExprModel>::empty());
            assert(spec_validate(reg, sm) is None);
        }
        // Evaluate the pipeline.
        proof {
            use_type_invariant(self.doc);
        }
        let root = elem_value(self.doc, 0);
        let mut cur: Vec<Value> = vec![root];
        proof {
            lemma_val_models_index(cur@);
            assert(val_models(cur@) =~= init_vals(docm));
            assert(sm.skip(0) =~= sm);
        }
        let mut j: usize = 0;
        while j < q.stages.len()
            invariant
                j <= q.stages@.len(),
                sm.len() == q.stages@.len(),
                spec_validate(reg, sm) is None,
                all_builtin(reg, sm) ==> spec_eval_stages(docm, reg, sm, init_vals(docm))
                    == spec_eval_stages(docm, reg, sm.skip(j as int), val_models(cur@)),
            decreases q.stages@.len() - j,
        {
            proof {
                assert(sm.skip(j as int)[0] == sm[j as int]);
                assert(sm[j as int] == q.stages@[j as int]@);
                assert(sm.skip(j as int).drop_first() =~= sm.skip(j + 1 as int));
                if all_builtin(reg, sm) {
                    lemma_exprs_all_builtin_index(reg, sm, j as int);
                }
            }
            let stepped = self.eval_expr(&q.stages[j], &cur);
            match stepped {
                Ok(nv) => {
                    cur = nv;
                },
                Err(err) => {
                    return Err(err);
                },
            }
            j += 1;
        }
        proof {
            assert(sm.skip(q.stages@.len() as int) =~= Seq::<ExprModel>::empty());
        }
        Ok(cur)
    }
}

/// Look up the extractor a selector step names.
fn reg_lookup_part<X>(reg: &Registry<X>, part: &SelPart) -> (r: Option<ExtractorImpl>)
    ensures
        match r {
            Some(x) => reg_ext(reg@, part@.name) == Some(x),
            None => reg_ext(reg@, part@.name) == None::<ExtractorImpl>,
        },
{
    reg.lookup_extractor(part.name.as_str())
}

/// Each step of an all-builtin selector path resolves to a built-in.
pub proof fn lemma_parts_all_builtin_index(reg: RegModel, parts: Seq<SelPartModel>, i: int)
    requires
        parts_all_builtin(reg, parts),
        0 <= i < parts.len(),
    ensures
        reg_ext(reg, parts[i].name) matches Some(ExtractorImpl::Builtin(_)),
    decreases i,
{
    if i > 0 {
        lemma_parts_all_builtin_index(reg, parts.drop_first(), i - 1);
        assert(parts.drop_first()[i - 1] == parts[i]);
    }
}

} // verus!
