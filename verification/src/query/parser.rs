//! The parser: consumes the token stream and produces a `Query` AST,
//! or reports the first grammar violation with its span.
//!
//! Grammar:
//! ```text
//! query    := stage ('|' stage)*
//! stage    := selector | call
//! call     := identifier '(' (expr (',' expr)*)? ')'
//! selector := selector-fragment+           (".h2", ".link.text")
//! expr     := literal | call | selector
//! ```
//! `|` has the lowest precedence and only separates top-level stages; a
//! bare `|` inside an argument list is rejected. The parser performs no
//! semantic validation: which names exist is the engine's business.
//!
//! `spec_parse` is the full functional specification; `parse_tokens` is
//! proved to return exactly what it describes.

use vstd::prelude::*;

use crate::query::ast::{
    expr_model, expr_models, lemma_expr_models_index, Expr, ExprModel, Lit, Query, SelPart,
    SelPartModel,
};
use crate::query::error::{ErrKindModel, ErrModel, ParseErrorKind, QueryError, QueryErrorKind, Span};
use crate::query::lexer::{tok_models, TokKindModel, TokModel, Token, TokenKind};

verus! {

/// The kind of the token at `i`; positions past the end read as `Eof`.
pub open spec fn tk(ts: Seq<TokModel>, i: int) -> TokKindModel {
    if 0 <= i < ts.len() {
        ts[i].kind
    } else {
        TokKindModel::Eof
    }
}

/// The span of the token at `i`; positions past the end read as empty.
pub open spec fn sp(ts: Seq<TokModel>, i: int) -> Span {
    if 0 <= i < ts.len() {
        ts[i].span
    } else {
        Span { start: 0, end: 0 }
    }
}

/// A parse error model at the given span.
pub open spec fn parse_err(k: ParseErrorKind, span: Span) -> ErrModel {
    ErrModel { kind: ErrKindModel::ParseError(k), span: Some(span) }
}

/// The first position at or after `pos` holding no selector fragment.
pub open spec fn sel_end(ts: Seq<TokModel>, pos: int) -> int
    decreases ts.len() - pos,
{
    if 0 <= pos < ts.len() && tk(ts, pos) is Selector {
        sel_end(ts, pos + 1)
    } else {
        pos
    }
}

/// Bounds and content of a selector run.
pub proof fn lemma_sel_end(ts: Seq<TokModel>, pos: int)
    requires
        0 <= pos <= ts.len(),
    ensures
        pos <= sel_end(ts, pos) <= ts.len(),
        forall|k: int| pos <= k < sel_end(ts, pos) ==> tk(ts, k) is Selector,
    decreases ts.len() - pos,
{
    if pos < ts.len() && tk(ts, pos) is Selector {
        lemma_sel_end(ts, pos + 1);
    }
}

/// The selector steps formed by the fragments `ts[pos..end]`.
pub open spec fn sel_parts(ts: Seq<TokModel>, pos: int, end: int) -> Seq<SelPartModel> {
    Seq::new((end - pos) as nat, |k: int| SelPartModel {
        name: tk(ts, pos + k)->Selector_0,
        span: sp(ts, pos + k),
    })
}

/// Parse the selector run starting at `pos` (meaningful when a
/// selector fragment stands there): the selector expression and the
/// position after its last fragment.
pub open spec fn spec_parse_selector(ts: Seq<TokModel>, pos: int) -> (ExprModel, int) {
    let end = sel_end(ts, pos);
    (
        ExprModel::Selector {
            parts: sel_parts(ts, pos, end),
            span: Span { start: sp(ts, pos).start, end: sp(ts, end - 1).end },
        },
        end,
    )
}

/// A position strictly after `pos` and at most `len`; parsing always
/// advances within bounds, so `padv(pos, next, len) == next`
/// throughout. It keeps the specification's recursion visibly bounded.
pub open spec fn padv(pos: int, next: int, len: int) -> int {
    if pos < next <= len {
        next
    } else if pos + 1 <= len {
        pos + 1
    } else {
        len
    }
}

/// Parse the function call whose name stands at `pos` (meaningful when
/// `pos` holds an identifier and `pos + 1` an opening parenthesis).
pub open spec fn spec_parse_call(ts: Seq<TokModel>, pos: int) -> Result<(ExprModel, int), ErrModel>
    decreases ts.len() - pos, 1int,
{
    if 0 <= pos && pos + 2 <= ts.len() {
        match spec_parse_args(ts, pos + 2, sp(ts, pos + 1)) {
            Ok((args, np)) => Ok(
                (
                    ExprModel::Call {
                        name: tk(ts, pos)->Ident_0,
                        name_span: sp(ts, pos),
                        args,
                        span: Span { start: sp(ts, pos).start, end: sp(ts, np - 1).end },
                    },
                    np,
                ),
            ),
            Err(e) => Err(e),
        }
    } else {
        Err(parse_err(ParseErrorKind::UnmatchedParen, sp(ts, pos + 1)))
    }
}

/// Parse an argument list from `pos` (just after the opening
/// parenthesis whose span is `open`): the arguments and the position
/// after the closing parenthesis.
pub open spec fn spec_parse_args(ts: Seq<TokModel>, pos: int, open: Span) -> Result<
    (Seq<ExprModel>, int),
    ErrModel,
>
    decreases ts.len() - pos, 3int,
{
    if tk(ts, pos) is RParen {
        Ok((Seq::empty(), pos + 1))
    } else if tk(ts, pos) is Eof {
        Err(parse_err(ParseErrorKind::UnmatchedParen, open))
    } else {
        match spec_parse_expr(ts, pos) {
            Ok((e, np)) => match spec_parse_args_rest(ts, padv(pos, np, ts.len() as int), open) {
                Ok((rest, np2)) => Ok((seq![e] + rest, np2)),
                Err(e2) => Err(e2),
            },
            Err(e2) => Err(e2),
        }
    }
}

/// Continue an argument list after a parsed argument: expect `,` or
/// `)`.
pub open spec fn spec_parse_args_rest(ts: Seq<TokModel>, pos: int, open: Span) -> Result<
    (Seq<ExprModel>, int),
    ErrModel,
>
    decreases ts.len() - pos, 4int,
{
    if tk(ts, pos) is RParen {
        Ok((Seq::empty(), pos + 1))
    } else if tk(ts, pos) is Comma {
        match spec_parse_expr(ts, pos + 1) {
            Ok((e, np)) => match spec_parse_args_rest(ts, padv(pos + 1, np, ts.len() as int), open) {
                Ok((rest, np2)) => Ok((seq![e] + rest, np2)),
                Err(e2) => Err(e2),
            },
            Err(e2) => Err(e2),
        }
    } else if tk(ts, pos) is Eof {
        Err(parse_err(ParseErrorKind::UnmatchedParen, open))
    } else if tk(ts, pos) is Pipe {
        Err(parse_err(ParseErrorKind::NestedPipe, sp(ts, pos)))
    } else {
        Err(parse_err(ParseErrorKind::UnexpectedToken, sp(ts, pos)))
    }
}

/// Parse one argument expression at `pos`: a literal, a call, or a
/// selector. A bare `|` here is a nested pipe and is rejected.
pub open spec fn spec_parse_expr(ts: Seq<TokModel>, pos: int) -> Result<(ExprModel, int), ErrModel>
    decreases ts.len() - pos, 2int,
{
    match tk(ts, pos) {
        TokKindModel::Selector(_) => Ok(spec_parse_selector(ts, pos)),
        TokKindModel::Ident(name) => {
            if tk(ts, pos + 1) is LParen {
                spec_parse_call(ts, pos)
            } else if name == "true"@ {
                Ok((ExprModel::Literal { lit: crate::query::ast::LitModel::Bool(true), span: sp(ts, pos) }, pos + 1))
            } else if name == "false"@ {
                Ok((ExprModel::Literal { lit: crate::query::ast::LitModel::Bool(false), span: sp(ts, pos) }, pos + 1))
            } else {
                Err(parse_err(ParseErrorKind::UnexpectedToken, sp(ts, pos)))
            }
        },
        TokKindModel::Str(sv) => Ok(
            (ExprModel::Literal { lit: crate::query::ast::LitModel::Str(sv), span: sp(ts, pos) }, pos + 1),
        ),
        TokKindModel::Num(n) => Ok(
            (ExprModel::Literal { lit: crate::query::ast::LitModel::Num(n), span: sp(ts, pos) }, pos + 1),
        ),
        TokKindModel::Pipe => Err(parse_err(ParseErrorKind::NestedPipe, sp(ts, pos))),
        _ => Err(parse_err(ParseErrorKind::UnexpectedToken, sp(ts, pos))),
    }
}

/// Parse one pipeline stage at `pos`: a selector or a call only.
pub open spec fn spec_parse_stage(ts: Seq<TokModel>, pos: int) -> Result<(ExprModel, int), ErrModel>
    decreases ts.len() - pos, 2int,
{
    if tk(ts, pos) is Selector {
        Ok(spec_parse_selector(ts, pos))
    } else if tk(ts, pos) is Ident && tk(ts, pos + 1) is LParen {
        spec_parse_call(ts, pos)
    } else {
        Err(parse_err(ParseErrorKind::UnexpectedToken, sp(ts, pos)))
    }
}

/// Parse the stage at `pos` and all stages piped after it.
pub open spec fn spec_parse_stages(ts: Seq<TokModel>, pos: int) -> Result<Seq<ExprModel>, ErrModel>
    decreases ts.len() - pos, 5int,
{
    if pos < 0 || pos >= ts.len() {
        Err(parse_err(ParseErrorKind::UnexpectedToken, sp(ts, pos)))
    } else {
        match spec_parse_stage(ts, pos) {
        Ok((e, np)) => {
            if tk(ts, np) is Eof {
                Ok(seq![e])
            } else if tk(ts, np) is Pipe {
                match spec_parse_stages(ts, padv(pos, np + 1, ts.len() as int)) {
                    Ok(rest) => Ok(seq![e] + rest),
                    Err(e2) => Err(e2),
                }
            } else {
                Err(parse_err(ParseErrorKind::TrailingTokens, sp(ts, np)))
            }
            },
            Err(e2) => Err(e2),
        }
    }
}

/// The full specification of the parser: the stages of the query, in
/// order, or the first grammar violation. An input with no stages at
/// all is an empty query.
pub open spec fn spec_parse(ts: Seq<TokModel>) -> Result<Seq<ExprModel>, ErrModel> {
    if tk(ts, 0) is Eof {
        Err(parse_err(ParseErrorKind::EmptyQuery, sp(ts, 0)))
    } else {
        spec_parse_stages(ts, 0)
    }
}

/// A copyable tag for a token kind.
#[derive(Clone, Copy, Debug, PartialEq, Eq, Structural)]
pub enum TokTag {
    Sel,
    Id,
    StrL,
    NumL,
    Pipe,
    LP,
    RP,
    Comma,
    Eof,
}

/// The tag of a token kind model.
pub open spec fn tag_of(k: TokKindModel) -> TokTag {
    match k {
        TokKindModel::Selector(_) => TokTag::Sel,
        TokKindModel::Ident(_) => TokTag::Id,
        TokKindModel::Str(_) => TokTag::StrL,
        TokKindModel::Num(_) => TokTag::NumL,
        TokKindModel::Pipe => TokTag::Pipe,
        TokKindModel::LParen => TokTag::LP,
        TokKindModel::RParen => TokTag::RP,
        TokKindModel::Comma => TokTag::Comma,
        TokKindModel::Eof => TokTag::Eof,
    }
}

/// The tag of the token at `pos`; positions past the end read as
/// `Eof`, mirroring `tk`.
fn tag_at(toks: &Vec<Token>, pos: usize) -> (t: TokTag)
    ensures
        t == tag_of(tk(tok_models(toks@), pos as int)),
        t != TokTag::Eof ==> pos < toks@.len(),
{
    if pos >= toks.len() {
        return TokTag::Eof;
    }
    match &toks[pos].kind {
        TokenKind::Selector(_) => TokTag::Sel,
        TokenKind::Ident(_) => TokTag::Id,
        TokenKind::Str(_) => TokTag::StrL,
        TokenKind::Num(_) => TokTag::NumL,
        TokenKind::Pipe => TokTag::Pipe,
        TokenKind::LParen => TokTag::LP,
        TokenKind::RParen => TokTag::RP,
        TokenKind::Comma => TokTag::Comma,
        TokenKind::Eof => TokTag::Eof,
    }
}

/// The span of the token at `pos`, mirroring `sp`.
fn span_at(toks: &Vec<Token>, pos: usize) -> (s: Span)
    ensures
        s == sp(tok_models(toks@), pos as int),
{
    if pos < toks.len() {
        toks[pos].span
    } else {
        Span { start: 0, end: 0 }
    }
}

/// Appending one expression extends the models by its model.
pub proof fn lemma_expr_models_push(s: Seq<Expr>, e: Expr)
    ensures
        expr_models(s.push(e)) == expr_models(s).push(expr_model(e)),
{
    lemma_expr_models_index(s.push(e));
    lemma_expr_models_index(s);
    assert(expr_models(s.push(e)) =~= expr_models(s).push(expr_model(e)));
}

/// Parse the selector run starting at `pos`.
#[verifier::loop_isolation(false)]
fn parse_selector(toks: &Vec<Token>, pos: usize) -> (r: (Expr, usize))
    requires
        tk(tok_models(toks@), pos as int) is Selector,
    ensures
        (r.0@, r.1 as int) == spec_parse_selector(tok_models(toks@), pos as int),
        pos < r.1 <= toks@.len(),
{
    let ghost ts = tok_models(toks@);
    proof {
        lemma_sel_end(ts, pos as int);
        lemma_sel_end(ts, pos + 1 as int);
    }
    let mut parts: Vec<SelPart> = Vec::new();
    let mut i: usize = pos;
    while i < toks.len() && tag_at(toks, i) == TokTag::Sel
        invariant
            pos <= i <= ts.len(),
            sel_end(ts, pos as int) == sel_end(ts, i as int),
            parts@.len() == i - pos,
            forall|k: int| 0 <= k < parts@.len() ==> #[trigger] parts@[k]@ == sel_parts(
                ts,
                pos as int,
                sel_end(ts, pos as int),
            )[k],
        decreases ts.len() - i,
    {
        let name: String = match &toks[i].kind {
            TokenKind::Selector(n) => n.clone(),
            _ => String::new(),
        };
        let part = SelPart { name, span: toks[i].span };
        proof {
            lemma_sel_end(ts, i + 1 as int);
            assert(part@ == sel_parts(ts, pos as int, sel_end(ts, pos as int))[i - pos]);
        }
        parts.push(part);
        i += 1;
    }
    let ghost end = sel_end(ts, pos as int);
    proof {
        assert(i as int == end);
        assert(parts@.len() == end - pos);
        assert(Seq::new(parts@.len(), |k: int| parts@[k]@) =~= sel_parts(ts, pos as int, end));
    }
    let start_span = span_at(toks, pos);
    let end_span = span_at(toks, i - 1);
    let e = Expr::Selector { parts, span: Span { start: start_span.start, end: end_span.end } };
    (e, i)
}

/// Parse one argument expression at `pos`.
fn parse_expr(toks: &Vec<Token>, pos: usize) -> (r: Result<(Expr, usize), QueryError>)
    ensures
        match r {
            Ok(p) => spec_parse_expr(tok_models(toks@), pos as int) == Ok::<
                (ExprModel, int),
                ErrModel,
            >((p.0@, p.1 as int)) && pos < p.1 <= toks@.len(),
            Err(e) => spec_parse_expr(tok_models(toks@), pos as int) == Err::<
                (ExprModel, int),
                ErrModel,
            >(e@),
        },
    decreases toks@.len() - pos, 2int,
{
    let ghost ts = tok_models(toks@);
    let n = toks.len();
    let tag = tag_at(toks, pos);
    match tag {
        TokTag::Sel => {
            let (e, np) = parse_selector(toks, pos);
            Ok((e, np))
        },
        TokTag::Id => {
            if tag_at(toks, pos + 1) == TokTag::LP {
                parse_call(toks, pos)
            } else {
                let name: String = match &toks[pos].kind {
                    TokenKind::Ident(n) => n.clone(),
                    _ => String::new(),
                };
                let t_true = String::from_str("true");
                let t_false = String::from_str("false");
                let span = span_at(toks, pos);
                if name == t_true {
                    Ok((Expr::Literal { lit: Lit::Bool(true), span }, pos + 1))
                } else if name == t_false {
                    Ok((Expr::Literal { lit: Lit::Bool(false), span }, pos + 1))
                } else {
                    Err(QueryError::at(QueryErrorKind::ParseError(ParseErrorKind::UnexpectedToken), span))
                }
            }
        },
        TokTag::StrL => {
            let sv: String = match &toks[pos].kind {
                TokenKind::Str(s) => s.clone(),
                _ => String::new(),
            };
            let span = span_at(toks, pos);
            Ok((Expr::Literal { lit: Lit::Str(sv), span }, pos + 1))
        },
        TokTag::NumL => {
            let n: i64 = match &toks[pos].kind {
                TokenKind::Num(n) => *n,
                _ => 0,
            };
            let span = span_at(toks, pos);
            Ok((Expr::Literal { lit: Lit::Num(n), span }, pos + 1))
        },
        TokTag::Pipe => {
            let span = span_at(toks, pos);
            Err(QueryError::at(QueryErrorKind::ParseError(ParseErrorKind::NestedPipe), span))
        },
        _ => {
            let span = span_at(toks, pos);
            Err(QueryError::at(QueryErrorKind::ParseError(ParseErrorKind::UnexpectedToken), span))
        },
    }
}

/// Parse the call whose name stands at `pos`.
#[verifier::loop_isolation(false)]
#[verifier::rlimit(60)]
fn parse_call(toks: &Vec<Token>, pos: usize) -> (r: Result<(Expr, usize), QueryError>)
    requires
        tk(tok_models(toks@), pos as int) is Ident,
        tk(tok_models(toks@), pos + 1 as int) is LParen,
    ensures
        match r {
            Ok(p) => spec_parse_call(tok_models(toks@), pos as int) == Ok::<
                (ExprModel, int),
                ErrModel,
            >((p.0@, p.1 as int)) && pos < p.1 <= toks@.len(),
            Err(e) => spec_parse_call(tok_models(toks@), pos as int) == Err::<
                (ExprModel, int),
                ErrModel,
            >(e@),
        },
    decreases toks@.len() - pos, 1int,
{
    let ghost ts = tok_models(toks@);
    let n_toks = toks.len();
    let name: String = match &toks[pos].kind {
        TokenKind::Ident(nm) => nm.clone(),
        _ => String::new(),
    };
    let name_span = span_at(toks, pos);
    let open = span_at(toks, pos + 1);
    let mut args: Vec<Expr> = Vec::new();
    let mut cur: usize = pos + 2;
    let ghost first_pos = cur as int;
    let mut close: usize = 0;
    let mut done: bool = false;
    // First argument, or an immediately closing parenthesis.
    let first_tag = tag_at(toks, cur);
    if first_tag == TokTag::RP {
        close = cur + 1;
        done = true;
        proof {
            assert(spec_parse_args(ts, first_pos, open) == Ok::<(Seq<ExprModel>, int), ErrModel>(
                (Seq::empty(), close as int),
            ));
            assert(expr_models(args@) + Seq::<ExprModel>::empty() =~= expr_models(args@));
        }
    } else if first_tag == TokTag::Eof {
        return Err(QueryError::at(QueryErrorKind::ParseError(ParseErrorKind::UnmatchedParen), open));
    } else {
        let first = parse_expr(toks, cur);
        let (e0, np0) = match first {
            Ok(p) => p,
            Err(e) => {
                return Err(e);
            },
        };
        proof {
            assert(padv(first_pos, np0 as int, ts.len() as int) == np0 as int);
            lemma_expr_models_push(args@, e0);
            assert forall|rest: Seq<ExprModel>|
                expr_models(args@) + (seq![expr_model(e0)] + rest) =~= expr_models(
                    args@.push(e0),
                ) + rest by {}
        }
        args.push(e0);
        cur = np0;
    }
    // Remaining arguments: `, expr` until the closing parenthesis.
    while !done
        invariant
            pos + 2 <= cur <= ts.len(),
            ts == tok_models(toks@),
            !done ==> forall|rest: Seq<ExprModel>, np2: int|
                spec_parse_args_rest(ts, cur as int, open) == Ok::<
                    (Seq<ExprModel>, int),
                    ErrModel,
                >((rest, np2)) ==> spec_parse_args(ts, first_pos, open) == Ok::<
                    (Seq<ExprModel>, int),
                    ErrModel,
                >((expr_models(args@) + rest, np2)),
            !done ==> forall|e2: ErrModel|
                spec_parse_args_rest(ts, cur as int, open) == Err::<
                    (Seq<ExprModel>, int),
                    ErrModel,
                >(e2) ==> spec_parse_args(ts, first_pos, open) == Err::<
                    (Seq<ExprModel>, int),
                    ErrModel,
                >(e2),
            done ==> spec_parse_args(ts, first_pos, open) == Ok::<
                (Seq<ExprModel>, int),
                ErrModel,
            >((expr_models(args@), close as int)),
            done ==> pos < close <= ts.len(),
        decreases ts.len() - cur + (if done { 0int } else { 1int }),
    {
        let t = tag_at(toks, cur);
        if t == TokTag::RP {
            close = cur + 1;
            proof {
                assert(spec_parse_args_rest(ts, cur as int, open) == Ok::<
                    (Seq<ExprModel>, int),
                    ErrModel,
                >((Seq::empty(), close as int)));
                assert(expr_models(args@) + Seq::<ExprModel>::empty() =~= expr_models(args@));
            }
            done = true;
        } else if t == TokTag::Comma {
            let next = parse_expr(toks, cur + 1);
            let (e1, np1) = match next {
                Ok(p) => p,
                Err(e) => {
                    return Err(e);
                },
            };
            proof {
                assert(padv(cur + 1 as int, np1 as int, ts.len() as int) == np1 as int);
                lemma_expr_models_push(args@, e1);
                assert forall|rest: Seq<ExprModel>|
                    expr_models(args@) + (seq![expr_model(e1)] + rest) =~= expr_models(
                        args@.push(e1),
                    ) + rest by {}
            }
            args.push(e1);
            cur = np1;
        } else if t == TokTag::Eof {
            return Err(
                QueryError::at(QueryErrorKind::ParseError(ParseErrorKind::UnmatchedParen), open),
            );
        } else if t == TokTag::Pipe {
            let span = span_at(toks, cur);
            return Err(QueryError::at(QueryErrorKind::ParseError(ParseErrorKind::NestedPipe), span));
        } else {
            let span = span_at(toks, cur);
            return Err(
                QueryError::at(QueryErrorKind::ParseError(ParseErrorKind::UnexpectedToken), span),
            );
        }
    }
    let close_span = span_at(toks, close - 1);
    let e = Expr::Call {
        name,
        name_span,
        args,
        span: Span { start: name_span.start, end: close_span.end },
    };
    proof {
        assert(e@ matches ExprModel::Call { args: a2, .. } ==> a2 == expr_models(e->Call_args@));
    }
    Ok((e, close))
}

/// Parse one pipeline stage at `pos`: a selector or a call only.
fn parse_stage(toks: &Vec<Token>, pos: usize) -> (r: Result<(Expr, usize), QueryError>)
    ensures
        match r {
            Ok(p) => spec_parse_stage(tok_models(toks@), pos as int) == Ok::<
                (ExprModel, int),
                ErrModel,
            >((p.0@, p.1 as int)) && pos < p.1 <= toks@.len(),
            Err(e) => spec_parse_stage(tok_models(toks@), pos as int) == Err::<
                (ExprModel, int),
                ErrModel,
            >(e@),
        },
    decreases toks@.len() - pos, 2int,
{
    let n = toks.len();
    let tag = tag_at(toks, pos);
    if tag == TokTag::Sel {
        let (e, np) = parse_selector(toks, pos);
        Ok((e, np))
    } else if tag == TokTag::Id && tag_at(toks, pos + 1) == TokTag::LP {
        parse_call(toks, pos)
    } else {
        let span = span_at(toks, pos);
        Err(QueryError::at(QueryErrorKind::ParseError(ParseErrorKind::UnexpectedToken), span))
    }
}

/// Parse a complete token stream into a query AST: the pipe-separated
/// stages, in order. Fails on an empty query, on any token no grammar
/// rule expects, on an unmatched parenthesis, and on a bare `|` inside
/// an argument list; every error carries the offending span. The
/// result is exactly what `spec_parse` describes.
#[verifier::loop_isolation(false)]
pub fn parse_tokens(toks: &Vec<Token>) -> (r: Result<Query, QueryError>)
    ensures
        match r {
            Ok(q) => spec_parse(tok_models(toks@)) == Ok::<Seq<ExprModel>, ErrModel>(q@)
                && q@.len() >= 1,
            Err(e) => spec_parse(tok_models(toks@)) == Err::<Seq<ExprModel>, ErrModel>(e@),
        },
{
    let ghost ts = tok_models(toks@);
    let n = toks.len();
    if tag_at(toks, 0) == TokTag::Eof {
        let span = span_at(toks, 0);
        return Err(QueryError::at(QueryErrorKind::ParseError(ParseErrorKind::EmptyQuery), span));
    }
    let mut stages: Vec<Expr> = Vec::new();
    let mut pos: usize = 0;
    loop
        invariant
            pos <= ts.len(),
            ts == tok_models(toks@),
            forall|rest: Seq<ExprModel>|
                spec_parse_stages(ts, pos as int) == Ok::<Seq<ExprModel>, ErrModel>(rest)
                    ==> spec_parse_stages(ts, 0) == Ok::<Seq<ExprModel>, ErrModel>(
                    expr_models(stages@) + rest,
                ),
            forall|e2: ErrModel|
                spec_parse_stages(ts, pos as int) == Err::<Seq<ExprModel>, ErrModel>(e2)
                    ==> spec_parse_stages(ts, 0) == Err::<Seq<ExprModel>, ErrModel>(e2),
            spec_parse(ts) == spec_parse_stages(ts, 0),
        decreases ts.len() - pos + 1,
    {
        let st = parse_stage(toks, pos);
        let (e, np) = match st {
            Ok(p) => p,
            Err(e) => {
                return Err(e);
            },
        };
        let t = tag_at(toks, np);
        if t == TokTag::Eof {
            proof {
                assert(spec_parse_stages(ts, pos as int) == Ok::<Seq<ExprModel>, ErrModel>(
                    seq![expr_model(e)],
                ));
                lemma_expr_models_push(stages@, e);
                assert(expr_models(stages@) + seq![expr_model(e)] =~= expr_models(
                    stages@.push(e),
                ));
            }
            stages.push(e);
            let q = Query { stages };
            proof {
                lemma_expr_models_index(q.stages@);
            }
            return Ok(q);
        } else if t == TokTag::Pipe {
            proof {
                assert(padv(pos as int, np + 1 as int, ts.len() as int) == np + 1 as int);
                lemma_expr_models_push(stages@, e);
                assert forall|rest: Seq<ExprModel>|
                    expr_models(stages@) + (seq![expr_model(e)] + rest) =~= expr_models(
                        stages@.push(e),
                    ) + rest by {
                    lemma_expr_models_push(stages@, e);
                }
            }
            stages.push(e);
            pos = np + 1;
        } else {
            let span = span_at(toks, np);
            return Err(
                QueryError::at(QueryErrorKind::ParseError(ParseErrorKind::TrailingTokens), span),
            );
        }
    }
}

} // verus!
