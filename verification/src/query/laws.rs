//! The laws the query engine obeys, stated and proved over the same
//! specification functions the engine's own contracts use.

use vstd::prelude::*;

use crate::document::{wf_nodes, NodeKind, NodeModel};
use crate::query::ast::{ExprModel, SelPartModel};
use crate::query::error::{ErrKindModel, ErrModel, Span};
use crate::query::eval::{
    all_builtin, arity_admits, elem_of, init_vals, is_projection, kind_matches, match_vals,
    spec_eval_expr, spec_eval_stages, spec_execute, spec_sel_parts, spec_validate, step_on_value,
    step_on_values,
    validate_expr, validate_exprs, validate_parts,
};
use crate::query::output::{spec_format, OutputFormat};
use crate::query::registry::{
    reg_ext, reg_fn, ArityModel, BuiltinExtractor, ExtractorImpl, FnModel, RegModel,
};
use crate::query::value::{text_of, ValModel};
use crate::query::{builtin_reg, spec_run};

verus! {

/// What a category extraction returns, characterised index-free: every
/// result is a reference to a matching node inside `lo..hi`; document
/// order is preserved (result order is strictly increasing node
/// order); and every matching node inside `lo..hi` appears.
pub proof fn lemma_match_vals_characterise(
    doc: Seq<NodeModel>,
    x: BuiltinExtractor,
    lo: int,
    hi: int,
)
    requires
        0 <= lo,
        hi <= doc.len(),
    ensures
        forall|k: int|
            0 <= k < match_vals(doc, x, lo, hi).len() ==> {
                let v = #[trigger] match_vals(doc, x, lo, hi)[k];
                &&& v is Node
                &&& lo <= v->Node_0.id < hi
                &&& v->Node_0 == elem_of(doc, v->Node_0.id)
                &&& kind_matches(x, doc[v->Node_0.id])
            },
        forall|k1: int, k2: int|
            0 <= k1 < k2 < match_vals(doc, x, lo, hi).len()
                ==> #[trigger] match_vals(doc, x, lo, hi)[k1]->Node_0.id
                < #[trigger] match_vals(doc, x, lo, hi)[k2]->Node_0.id,
        forall|j: int|
            lo <= j < hi && kind_matches(x, #[trigger] doc[j]) ==> exists|k: int|
                0 <= k < match_vals(doc, x, lo, hi).len() && match_vals(doc, x, lo, hi)[k]
                    == ValModel::Node(elem_of(doc, j)) && elem_of(doc, j).id == j,
    decreases hi - lo,
{
    if lo < hi {
        lemma_match_vals_characterise(doc, x, lo + 1, hi);
        let r = match_vals(doc, x, lo, hi);
        let rest = match_vals(doc, x, lo + 1, hi);
        if kind_matches(x, doc[lo]) {
            assert(r == seq![ValModel::Node(elem_of(doc, lo))] + rest);
            assert(forall|k: int| 1 <= k < r.len() ==> r[k] == rest[k - 1]);
            assert forall|j: int|
                lo <= j < hi && kind_matches(x, #[trigger] doc[j]) implies exists|k: int|
                0 <= k < r.len() && r[k] == ValModel::Node(elem_of(doc, j)) && elem_of(doc, j).id
                    == j by {
                if j == lo {
                    assert(r[0] == ValModel::Node(elem_of(doc, lo)));
                } else {
                    let k0 = choose|k0: int|
                        0 <= k0 < rest.len() && rest[k0] == ValModel::Node(elem_of(doc, j))
                            && elem_of(doc, j).id == j;
                    assert(r[k0 + 1] == ValModel::Node(elem_of(doc, j)));
                }
            }
        } else {
            assert(r == rest);
        }
    }
}

/// Selector ordering: over a well-formed document, a one-stage
/// selector query whose single step resolves to a built-in element
/// category returns exactly that category's nodes from the whole
/// document, in pre-order (node index) order — the characterisation of
/// `lemma_match_vals_characterise` applies to the result with the full
/// node range.
pub proof fn lemma_selector_ordering(
    doc: Seq<NodeModel>,
    reg: RegModel,
    name: Seq<char>,
    span: Span,
    sspan: Span,
    x: BuiltinExtractor,
)
    requires
        wf_nodes(doc),
        reg_ext(reg, name) == Some(ExtractorImpl::Builtin(x)),
        !is_projection(x),
    ensures
        spec_execute(
            doc,
            reg,
            seq![
                ExprModel::Selector {
                    parts: seq![SelPartModel { name, span }],
                    span: sspan,
                },
            ],
        ) == Ok::<Seq<ValModel>, ErrModel>(match_vals(doc, x, 1, doc.len() as int)),
{
    let parts = seq![SelPartModel { name, span }];
    let stage = ExprModel::Selector { parts, span: sspan };
    let q = seq![stage];
    assert(parts[0].name == name);
    assert(parts.drop_first() =~= Seq::<SelPartModel>::empty());
    assert(validate_parts(reg, parts.drop_first()) is None);
    assert(validate_parts(reg, parts) is None);
    assert(q[0] == stage);
    assert(q.drop_first() =~= Seq::<ExprModel>::empty());
    assert(validate_exprs(reg, q.drop_first()) is None);
    assert(validate_expr(reg, stage) == validate_parts(reg, parts));
    assert(validate_exprs(reg, q) == match validate_expr(reg, q[0]) {
        Some(e) => Some(e),
        None => validate_exprs(reg, q.drop_first()),
    });
    assert(spec_validate(reg, q) is None);
    let init = init_vals(doc);
    assert(init[0] == ValModel::Node(elem_of(doc, 0)));
    let root = elem_of(doc, 0);
    assert(doc[0].end == doc.len());
    assert(step_on_value(doc, x, init[0]) == Ok::<Seq<ValModel>, ()>(
        match_vals(doc, x, 1, doc.len() as int),
    ));
    assert(init.drop_first() =~= Seq::<ValModel>::empty());
    assert(step_on_values(doc, x, init.drop_first()) == Ok::<Seq<ValModel>, ()>(
        Seq::<ValModel>::empty(),
    ));
    assert(match_vals(doc, x, 1, doc.len() as int) + Seq::<ValModel>::empty() =~= match_vals(
        doc,
        x,
        1,
        doc.len() as int,
    ));
    assert(step_on_values(doc, x, init) == Ok::<Seq<ValModel>, ()>(
        match_vals(doc, x, 1, doc.len() as int),
    ));
    let mv = match_vals(doc, x, 1, doc.len() as int);
    assert(spec_sel_parts(doc, reg, parts.drop_first(), mv) == Ok::<Seq<ValModel>, ErrModel>(mv));
    assert(spec_sel_parts(doc, reg, parts, init) == Ok::<Seq<ValModel>, ErrModel>(mv));
    assert(spec_eval_expr(doc, reg, stage, init) == Ok::<Seq<ValModel>, ErrModel>(mv));
    assert(spec_eval_stages(doc, reg, q.drop_first(), mv) == Ok::<Seq<ValModel>, ErrModel>(mv));
    assert(spec_eval_stages(doc, reg, q, init) == match spec_eval_expr(doc, reg, q[0], init) {
        Ok(vs2) => spec_eval_stages(doc, reg, q.drop_first(), vs2),
        Err(e) => Err(e),
    });
}


/// Validating one more stage checks it after the ones before it.
pub proof fn lemma_validate_append(reg: RegModel, q: Seq<ExprModel>, s: ExprModel)
    ensures
        validate_exprs(reg, q.push(s)) == match validate_exprs(reg, q) {
            Some(e) => Some(e),
            None => validate_expr(reg, s),
        },
    decreases q.len(),
{
    let p = q.push(s);
    if q.len() == 0 {
        assert(p[0] == s);
        assert(p.drop_first() =~= Seq::<ExprModel>::empty());
        assert(validate_exprs(reg, p) == match validate_expr(reg, s) {
            Some(e) => Some(e),
            None => validate_exprs(reg, p.drop_first()),
        });
        assert(validate_exprs(reg, q) is None);
    } else {
        lemma_validate_append(reg, q.drop_first(), s);
        assert(p[0] == q[0]);
        assert(p.drop_first() =~= q.drop_first().push(s));
        assert(validate_exprs(reg, p) == match validate_expr(reg, p[0]) {
            Some(e) => Some(e),
            None => validate_exprs(reg, p.drop_first()),
        });
        assert(validate_exprs(reg, q) == match validate_expr(reg, q[0]) {
            Some(e) => Some(e),
            None => validate_exprs(reg, q.drop_first()),
        });
    }
}

/// Evaluating one more stage feeds it what the ones before produced.
pub proof fn lemma_eval_stages_append(
    doc: Seq<NodeModel>,
    reg: RegModel,
    q: Seq<ExprModel>,
    s: ExprModel,
    vs: Seq<ValModel>,
)
    ensures
        spec_eval_stages(doc, reg, q.push(s), vs) == match spec_eval_stages(doc, reg, q, vs) {
            Ok(vs2) => spec_eval_expr(doc, reg, s, vs2),
            Err(e) => Err(e),
        },
    decreases q.len(),
{
    let p = q.push(s);
    if q.len() == 0 {
        assert(p[0] == s);
        assert(p.drop_first() =~= Seq::<ExprModel>::empty());
        assert(spec_eval_stages(doc, reg, q, vs) == Ok::<Seq<ValModel>, ErrModel>(vs));
        assert(spec_eval_stages(doc, reg, p, vs) == match spec_eval_expr(doc, reg, p[0], vs) {
            Ok(vs2) => spec_eval_stages(doc, reg, p.drop_first(), vs2),
            Err(e) => Err(e),
        });
        match spec_eval_expr(doc, reg, s, vs) {
            Ok(vs2) => {
                assert(spec_eval_stages(doc, reg, p.drop_first(), vs2) == Ok::<
                    Seq<ValModel>,
                    ErrModel,
                >(vs2));
            },
            Err(_) => {},
        }
    } else {
        assert(p[0] == q[0]);
        assert(p.drop_first() =~= q.drop_first().push(s));
        assert(spec_eval_stages(doc, reg, p, vs) == match spec_eval_expr(doc, reg, p[0], vs) {
            Ok(vs2) => spec_eval_stages(doc, reg, p.drop_first(), vs2),
            Err(e) => Err(e),
        });
        assert(spec_eval_stages(doc, reg, q, vs) == match spec_eval_expr(doc, reg, q[0], vs) {
            Ok(vs2) => spec_eval_stages(doc, reg, q.drop_first(), vs2),
            Err(e) => Err(e),
        });
        match spec_eval_expr(doc, reg, q[0], vs) {
            Ok(vs2) => {
                lemma_eval_stages_append(doc, reg, q.drop_first(), s, vs2);
            },
            Err(_) => {},
        }
    }
}

/// A `.text` step never fails and projects each value to its text.
pub proof fn lemma_text_step(doc: Seq<NodeModel>, vs: Seq<ValModel>)
    ensures
        step_on_values(doc, BuiltinExtractor::Text, vs) == Ok::<Seq<ValModel>, ()>(
            Seq::new(vs.len(), |i: int| ValModel::String(text_of(vs[i]))),
        ),
    decreases vs.len(),
{
    let m = Seq::new(vs.len(), |i: int| ValModel::String(text_of(vs[i])));
    if vs.len() == 0 {
        assert(m =~= Seq::<ValModel>::empty());
    } else {
        lemma_text_step(doc, vs.drop_first());
        let mrest = Seq::new(
            vs.drop_first().len(),
            |i: int| ValModel::String(text_of(vs.drop_first()[i])),
        );
        assert(seq![ValModel::String(text_of(vs[0]))] + mrest =~= m);
    }
}

/// Pipe composition: appending a `.text` stage to a successful query
/// projects the query's results to their texts, element for element,
/// in the same order.
pub proof fn lemma_pipe_composition_text(
    doc: Seq<NodeModel>,
    reg: RegModel,
    q: Seq<ExprModel>,
    vs: Seq<ValModel>,
    name: Seq<char>,
    span: Span,
    sspan: Span,
)
    requires
        spec_execute(doc, reg, q) == Ok::<Seq<ValModel>, ErrModel>(vs),
        reg_ext(reg, name) == Some(ExtractorImpl::Builtin(BuiltinExtractor::Text)),
    ensures
        spec_execute(
            doc,
            reg,
            q.push(
                ExprModel::Selector { parts: seq![SelPartModel { name, span }], span: sspan },
            ),
        ) == Ok::<Seq<ValModel>, ErrModel>(
            Seq::new(vs.len(), |i: int| ValModel::String(text_of(vs[i]))),
        ),
{
    let parts = seq![SelPartModel { name, span }];
    let stage = ExprModel::Selector { parts, span: sspan };
    assert(parts[0].name == name);
    assert(parts.drop_first() =~= Seq::<SelPartModel>::empty());
    assert(validate_parts(reg, parts.drop_first()) is None);
    assert(validate_parts(reg, parts) is None);
    assert(validate_expr(reg, stage) is None);
    lemma_validate_append(reg, q, stage);
    assert(spec_validate(reg, q.push(stage)) is None);
    lemma_eval_stages_append(doc, reg, q, stage, init_vals(doc));
    lemma_text_step(doc, vs);
    let m = Seq::new(vs.len(), |i: int| ValModel::String(text_of(vs[i])));
    assert(spec_sel_parts(doc, reg, parts.drop_first(), m) == Ok::<Seq<ValModel>, ErrModel>(m));
    assert(spec_sel_parts(doc, reg, parts, vs) == Ok::<Seq<ValModel>, ErrModel>(m));
    assert(spec_eval_expr(doc, reg, stage, vs) == Ok::<Seq<ValModel>, ErrModel>(m));
}

/// Arity enforcement: a call whose argument count lies outside the
/// registered range fails validation with exactly that arity error,
/// and one whose count lies inside it passes the arity check.
pub proof fn lemma_arity_enforcement(
    reg: RegModel,
    doc: Seq<NodeModel>,
    name: Seq<char>,
    name_span: Span,
    args: Seq<ExprModel>,
    span: Span,
    f: FnModel,
)
    requires
        reg_fn(reg, name) == Some(f),
    ensures
        !arity_admits(f.arity, args.len() as int) ==> spec_execute(
            doc,
            reg,
            seq![ExprModel::Call { name, name_span, args, span }],
        ) == Err::<Seq<ValModel>, ErrModel>(
            ErrModel {
                kind: ErrKindModel::ArityError {
                    min: f.arity.min,
                    max: f.arity.max,
                    got: args.len() as int,
                },
                span: Some(span),
            },
        ),
        arity_admits(f.arity, args.len() as int) ==> validate_expr(
            reg,
            ExprModel::Call { name, name_span, args, span },
        ) == validate_exprs(reg, args),
{
    let call = ExprModel::Call { name, name_span, args, span };
    let q = seq![call];
    if !arity_admits(f.arity, args.len() as int) {
        assert(validate_exprs(reg, q) == Some(
            ErrModel {
                kind: ErrKindModel::ArityError {
                    min: f.arity.min,
                    max: f.arity.max,
                    got: args.len() as int,
                },
                span: Some(span),
            },
        ));
    }
}

/// Unknown selector: a selector step naming no registered extractor
/// fails the whole query with exactly an unknown-selector error at
/// that step's span, whatever the document holds.
pub proof fn lemma_unknown_selector(
    doc: Seq<NodeModel>,
    reg: RegModel,
    name: Seq<char>,
    span: Span,
    sspan: Span,
)
    requires
        reg_ext(reg, name) is None,
    ensures
        spec_execute(
            doc,
            reg,
            seq![ExprModel::Selector { parts: seq![SelPartModel { name, span }], span: sspan }],
        ) == Err::<Seq<ValModel>, ErrModel>(
            ErrModel { kind: ErrKindModel::UnknownSelector(name), span: Some(span) },
        ),
{
    let parts = seq![SelPartModel { name, span }];
    let stage = ExprModel::Selector { parts, span: sspan };
    let q = seq![stage];
    let e = ErrModel { kind: ErrKindModel::UnknownSelector(name), span: Some(span) };
    assert(parts[0].name == name);
    assert(validate_parts(reg, parts) == Some(e));
    assert(validate_expr(reg, stage) == Some(e));
    assert(q[0] == stage);
    assert(validate_exprs(reg, q) == match validate_expr(reg, q[0]) {
        Some(e2) => Some(e2),
        None => validate_exprs(reg, q.drop_first()),
    });
}

/// Determinism: the whole pipeline — lexing, parsing, validation,
/// evaluation and formatting — is specified as a function of the
/// document, the query text and the format, so two runs that both meet
/// the contracts of `execute` and `format_output` render byte-identical
/// output, and two failing runs report the identical error.
pub proof fn lemma_determinism(
    doc: Seq<NodeModel>,
    q: Seq<char>,
    fmt: OutputFormat,
    r1: Result<Seq<ValModel>, ErrModel>,
    r2: Result<Seq<ValModel>, ErrModel>,
)
    requires
        r1 == spec_run(doc, q),
        r2 == spec_run(doc, q),
    ensures
        r1 == r2,
        r1 matches Ok(a) ==> (r2 matches Ok(b) && spec_format(a, fmt) == spec_format(b, fmt)),
{
}

/// All-or-nothing on error: when a later stage fails, the whole query
/// reports that failure and returns no values at all — whatever the
/// earlier stages had already produced.
pub proof fn lemma_all_or_nothing(
    doc: Seq<NodeModel>,
    reg: RegModel,
    s1: ExprModel,
    s2: ExprModel,
    vs1: Seq<ValModel>,
    e: ErrModel,
)
    requires
        spec_validate(reg, seq![s1, s2]) is None,
        spec_eval_expr(doc, reg, s1, init_vals(doc)) == Ok::<Seq<ValModel>, ErrModel>(vs1),
        spec_eval_expr(doc, reg, s2, vs1) == Err::<Seq<ValModel>, ErrModel>(e),
    ensures
        spec_execute(doc, reg, seq![s1, s2]) == Err::<Seq<ValModel>, ErrModel>(e),
{
    let q = seq![s1, s2];
    assert(q[0] == s1);
    assert(q.drop_first() =~= seq![s2]);
    assert(q.drop_first()[0] == s2);
    assert(q.drop_first().drop_first() =~= Seq::<ExprModel>::empty());
    assert(spec_eval_stages(doc, reg, q.drop_first(), vs1) == match spec_eval_expr(
        doc,
        reg,
        s2,
        vs1,
    ) {
        Ok(vs2) => spec_eval_stages(doc, reg, q.drop_first().drop_first(), vs2),
        Err(e2) => Err(e2),
    });
    assert(spec_eval_stages(doc, reg, q, init_vals(doc)) == match spec_eval_expr(
        doc,
        reg,
        s1,
        init_vals(doc),
    ) {
        Ok(vs2) => spec_eval_stages(doc, reg, q.drop_first(), vs2),
        Err(e2) => Err(e2),
    });
}

} // verus!
