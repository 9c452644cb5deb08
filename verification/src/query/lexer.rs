//! The lexer: turns a query string into an ordered sequence of tokens,
//! each with a character-offset span into the source text.
//!
//! `spec_tokens` is the full functional specification; `tokenize` is
//! proved to return exactly what it describes. The token stream always
//! ends with an `Eof` sentinel, so the parser never special-cases
//! exhaustion.

use vstd::prelude::*;

use crate::query::error::{ErrKindModel, ErrModel, LexErrorKind, QueryError, QueryErrorKind, Span};
use crate::strutil::{chars_range_string, str_to_chars};
pub use crate::strutil::is_space;

verus! {

/// The classification of one lexical unit.
#[derive(Debug)]
pub enum TokenKind {
    /// A dot-prefixed selector fragment: `.h2` carries `h2`.
    Selector(String),
    /// A bare identifier (a function name, or `true`/`false`).
    Ident(String),
    /// A quoted string literal, with escapes already resolved.
    Str(String),
    /// A numeric literal.
    Num(i64),
    /// The pipe separator `|`.
    Pipe,
    /// `(`
    LParen,
    /// `)`
    RParen,
    /// `,`
    Comma,
    /// The end-of-input sentinel.
    Eof,
}

/// The ghost projection of a token kind.
pub enum TokKindModel {
    Selector(Seq<char>),
    Ident(Seq<char>),
    Str(Seq<char>),
    Num(int),
    Pipe,
    LParen,
    RParen,
    Comma,
    Eof,
}

impl View for TokenKind {
    type V = TokKindModel;

    open spec fn view(&self) -> TokKindModel {
        match self {
            TokenKind::Selector(s) => TokKindModel::Selector(s@),
            TokenKind::Ident(s) => TokKindModel::Ident(s@),
            TokenKind::Str(s) => TokKindModel::Str(s@),
            TokenKind::Num(n) => TokKindModel::Num(*n as int),
            TokenKind::Pipe => TokKindModel::Pipe,
            TokenKind::LParen => TokKindModel::LParen,
            TokenKind::RParen => TokKindModel::RParen,
            TokenKind::Comma => TokKindModel::Comma,
            TokenKind::Eof => TokKindModel::Eof,
        }
    }
}

/// One classified lexical unit with its source span.
#[derive(Debug)]
pub struct Token {
    pub kind: TokenKind,
    pub span: Span,
}

/// The ghost projection of a token.
pub struct TokModel {
    pub kind: TokKindModel,
    pub span: Span,
}

impl View for Token {
    type V = TokModel;

    open spec fn view(&self) -> TokModel {
        TokModel { kind: self.kind@, span: self.span }
    }
}

/// The ghost projection of a token sequence.
pub open spec fn tok_models(ts: Seq<Token>) -> Seq<TokModel> {
    Seq::new(ts.len(), |i: int| ts[i]@)
}

/// May a character start an identifier?
pub open spec fn is_ident_start(c: char) -> bool {
    ('a' <= c && c <= 'z') || ('A' <= c && c <= 'Z') || c == '_'
}

/// A decimal digit.
pub open spec fn is_digit(c: char) -> bool {
    '0' <= c && c <= '9'
}

/// May a character continue an identifier?
pub open spec fn is_ident_char(c: char) -> bool {
    is_ident_start(c) || is_digit(c)
}

/// The first position at or after `pos` that cannot continue an
/// identifier.
pub open spec fn ident_end(s: Seq<char>, pos: int) -> int
    decreases s.len() - pos,
{
    if 0 <= pos < s.len() && is_ident_char(s[pos]) {
        ident_end(s, pos + 1)
    } else {
        pos
    }
}

/// Bounds and content of an identifier run.
pub proof fn lemma_ident_end(s: Seq<char>, pos: int)
    requires
        0 <= pos <= s.len(),
    ensures
        pos <= ident_end(s, pos) <= s.len(),
        forall|k: int| pos <= k < ident_end(s, pos) ==> is_ident_char(#[trigger] s[k]),
    decreases s.len() - pos,
{
    if pos < s.len() && is_ident_char(s[pos]) {
        lemma_ident_end(s, pos + 1);
    }
}

/// The first position at or after `pos` holding no digit.
pub open spec fn digit_end(s: Seq<char>, pos: int) -> int
    decreases s.len() - pos,
{
    if 0 <= pos < s.len() && is_digit(s[pos]) {
        digit_end(s, pos + 1)
    } else {
        pos
    }
}

/// Bounds and content of a digit run.
pub proof fn lemma_digit_end(s: Seq<char>, pos: int)
    requires
        0 <= pos <= s.len(),
    ensures
        pos <= digit_end(s, pos) <= s.len(),
        forall|k: int| pos <= k < digit_end(s, pos) ==> is_digit(#[trigger] s[k]),
    decreases s.len() - pos,
{
    if pos < s.len() && is_digit(s[pos]) {
        lemma_digit_end(s, pos + 1);
    }
}

/// The numeric value of a run of decimal digits.
pub open spec fn digits_val(ds: Seq<char>) -> int
    decreases ds.len(),
{
    if ds.len() == 0 {
        0
    } else {
        digits_val(ds.drop_last()) * 10 + (ds.last() as int - 48)
    }
}

/// A digit run's value is non-negative, and one more digit never
/// shrinks it.
pub proof fn lemma_digits_val_extend(ds: Seq<char>)
    requires
        forall|k: int| 0 <= k < ds.len() ==> is_digit(#[trigger] ds[k]),
    ensures
        digits_val(ds) >= 0,
        ds.len() > 0 ==> digits_val(ds) >= digits_val(ds.drop_last()),
    decreases ds.len(),
{
    if ds.len() > 0 {
        lemma_digits_val_extend(ds.drop_last());
    }
}

/// Extending a digit run never shrinks its value.
pub proof fn lemma_digits_val_monotone(s: Seq<char>, pos: int, a: int, b: int)
    requires
        0 <= pos <= a <= b <= s.len(),
        forall|k: int| pos <= k < b ==> is_digit(#[trigger] s[k]),
    ensures
        digits_val(s.subrange(pos, a)) <= digits_val(s.subrange(pos, b)),
    decreases b - a,
{
    if a < b {
        lemma_digits_val_monotone(s, pos, a + 1, b);
        assert(s.subrange(pos, a + 1).drop_last() =~= s.subrange(pos, a));
        lemma_digits_val_extend(s.subrange(pos, a + 1));
    }
}

/// What an escape sequence resolves to: `\n`, `\t` and `\r` become
/// control characters; any other escaped character stands for itself.
pub open spec fn esc_char(c: char) -> char {
    if c == 'n' {
        '\n'
    } else if c == 't' {
        '\t'
    } else if c == 'r' {
        '\r'
    } else {
        c
    }
}

/// The outcome of scanning a string literal's body: the resolved
/// content and the position just after the closing quote, or a
/// missing-quote failure.
pub enum ScanRes {
    Found(Seq<char>, int),
    Unterminated,
}

/// Scan a string literal's body starting at `pos` (just after the
/// opening quote).
pub open spec fn scan_str(s: Seq<char>, pos: int) -> ScanRes
    decreases s.len() - pos,
{
    if pos < 0 || pos >= s.len() {
        ScanRes::Unterminated
    } else if s[pos] == '"' {
        ScanRes::Found(Seq::empty(), pos + 1)
    } else if s[pos] == '\\' {
        if pos + 1 >= s.len() {
            ScanRes::Unterminated
        } else {
            match scan_str(s, pos + 2) {
                ScanRes::Found(content, after) => ScanRes::Found(
                    seq![esc_char(s[pos + 1])] + content,
                    after,
                ),
                ScanRes::Unterminated => ScanRes::Unterminated,
            }
        }
    } else {
        match scan_str(s, pos + 1) {
            ScanRes::Found(content, after) => ScanRes::Found(seq![s[pos]] + content, after),
            ScanRes::Unterminated => ScanRes::Unterminated,
        }
    }
}

/// A found literal ends after its starting position, within bounds.
pub proof fn lemma_scan_str_bounds(s: Seq<char>, pos: int)
    requires
        0 <= pos <= s.len(),
    ensures
        scan_str(s, pos) is Found ==> pos < scan_str(s, pos)->Found_1 <= s.len(),
    decreases s.len() - pos,
{
    if pos < s.len() && s[pos] != '"' {
        if s[pos] == '\\' {
            if pos + 2 <= s.len() {
                lemma_scan_str_bounds(s, pos + 2);
            }
        } else {
            lemma_scan_str_bounds(s, pos + 1);
        }
    }
}

/// Prepend a token to a lexing outcome.
pub open spec fn cons_tok(t: TokModel, rest: Result<Seq<TokModel>, ErrModel>) -> Result<
    Seq<TokModel>,
    ErrModel,
> {
    match rest {
        Ok(ts) => Ok(seq![t] + ts),
        Err(e) => Err(e),
    }
}

/// A position strictly after `pos` and at most `len`, used to keep the
/// specification's recursion visibly bounded; every lexeme in fact ends
/// after the position it starts at and within the input, so
/// `adv(pos, end, len) == end` throughout.
pub open spec fn adv(pos: int, end: int, len: int) -> int {
    if pos < end <= len {
        end
    } else {
        pos + 1
    }
}

/// A one-character token at `pos`.
pub open spec fn one_char_tok(k: TokKindModel, pos: int) -> TokModel {
    TokModel { kind: k, span: Span { start: pos as usize, end: (pos + 1) as usize } }
}

/// A lexical error model spanning `start..end`.
pub open spec fn lex_err(k: LexErrorKind, start: int, end: int) -> ErrModel {
    ErrModel {
        kind: ErrKindModel::LexError(k),
        span: Some(Span { start: start as usize, end: end as usize }),
    }
}

/// The full specification of the lexer from position `pos` on: the
/// tokens of the rest of the input (ending in `Eof`), or the first
/// lexical error. Whitespace separates tokens and is skipped.
pub open spec fn spec_tokens(s: Seq<char>, pos: int) -> Result<Seq<TokModel>, ErrModel>
    decreases s.len() - pos,
{
    if pos < 0 {
        Err(lex_err(LexErrorKind::InvalidChar(' '), 0, 0))
    } else if pos >= s.len() {
        Ok(
            seq![
                TokModel {
                    kind: TokKindModel::Eof,
                    span: Span { start: pos as usize, end: pos as usize },
                },
            ],
        )
    } else if is_space(s[pos]) {
        spec_tokens(s, pos + 1)
    } else if s[pos] == '|' {
        cons_tok(one_char_tok(TokKindModel::Pipe, pos), spec_tokens(s, pos + 1))
    } else if s[pos] == '(' {
        cons_tok(one_char_tok(TokKindModel::LParen, pos), spec_tokens(s, pos + 1))
    } else if s[pos] == ')' {
        cons_tok(one_char_tok(TokKindModel::RParen, pos), spec_tokens(s, pos + 1))
    } else if s[pos] == ',' {
        cons_tok(one_char_tok(TokKindModel::Comma, pos), spec_tokens(s, pos + 1))
    } else if s[pos] == '.' {
        if pos + 1 < s.len() && is_ident_start(s[pos + 1]) {
            let end = ident_end(s, pos + 1);
            cons_tok(
                TokModel {
                    kind: TokKindModel::Selector(s.subrange(pos + 1, end)),
                    span: Span { start: pos as usize, end: end as usize },
                },
                spec_tokens(s, adv(pos, end, s.len() as int)),
            )
        } else {
            Err(lex_err(LexErrorKind::InvalidChar('.'), pos, pos + 1))
        }
    } else if is_ident_start(s[pos]) {
        let end = ident_end(s, pos);
        cons_tok(
            TokModel {
                kind: TokKindModel::Ident(s.subrange(pos, end)),
                span: Span { start: pos as usize, end: end as usize },
            },
            spec_tokens(s, adv(pos, end, s.len() as int)),
        )
    } else if is_digit(s[pos]) {
        let end = digit_end(s, pos);
        let val = digits_val(s.subrange(pos, end));
        if val > i64::MAX as int {
            Err(lex_err(LexErrorKind::NumberTooLarge, pos, end))
        } else {
            cons_tok(
                TokModel {
                    kind: TokKindModel::Num(val),
                    span: Span { start: pos as usize, end: end as usize },
                },
                spec_tokens(s, adv(pos, end, s.len() as int)),
            )
        }
    } else if s[pos] == '"' {
        match scan_str(s, pos + 1) {
            ScanRes::Found(content, after) => cons_tok(
                TokModel {
                    kind: TokKindModel::Str(content),
                    span: Span { start: pos as usize, end: after as usize },
                },
                spec_tokens(s, adv(pos, after, s.len() as int)),
            ),
            ScanRes::Unterminated => Err(
                lex_err(LexErrorKind::UnterminatedString, pos, s.len() as int),
            ),
        }
    } else {
        Err(lex_err(LexErrorKind::InvalidChar(s[pos]), pos, pos + 1))
    }
}

/// Prepend already-lexed tokens to the outcome for the rest.
pub open spec fn compose_toks(acc: Seq<TokModel>, rest: Result<Seq<TokModel>, ErrModel>) -> Result<
    Seq<TokModel>,
    ErrModel,
> {
    match rest {
        Ok(ts) => Ok(acc + ts),
        Err(e) => Err(e),
    }
}

/// Consuming a token moves it from the pending side to the
/// accumulator.
pub proof fn lemma_compose_push(
    acc: Seq<TokModel>,
    t: TokModel,
    rest: Result<Seq<TokModel>, ErrModel>,
)
    ensures
        compose_toks(acc, cons_tok(t, rest)) == compose_toks(acc.push(t), rest),
{
    match rest {
        Ok(ts) => {
            assert(acc + (seq![t] + ts) =~= acc.push(t) + ts);
        },
        Err(_) => {},
    }
}

/// Is `c` recognised as whitespace?
fn is_space_x(c: char) -> (r: bool)
    ensures
        r == is_space(c),
{
    c == ' ' || c == '\t' || c == '\n' || c == '\r'
}

/// Can `c` start an identifier?
fn is_ident_start_x(c: char) -> (r: bool)
    ensures
        r == is_ident_start(c),
{
    ('a' <= c && c <= 'z') || ('A' <= c && c <= 'Z') || c == '_'
}

/// Is `c` a digit?
fn is_digit_x(c: char) -> (r: bool)
    ensures
        r == is_digit(c),
{
    '0' <= c && c <= '9'
}

/// Can `c` continue an identifier?
fn is_ident_char_x(c: char) -> (r: bool)
    ensures
        r == is_ident_char(c),
{
    is_ident_start_x(c) || is_digit_x(c)
}

/// Scan an identifier run: the first position at or after `pos` that
/// cannot continue an identifier.
#[verifier::loop_isolation(false)]
fn scan_ident_end(cs: &Vec<char>, pos: usize) -> (end: usize)
    requires
        pos <= cs@.len(),
    ensures
        end == ident_end(cs@, pos as int),
        pos <= end <= cs@.len(),
{
    let mut i: usize = pos;
    while i < cs.len() && is_ident_char_x(cs[i])
        invariant
            pos <= i <= cs@.len(),
            ident_end(cs@, pos as int) == ident_end(cs@, i as int),
        decreases cs@.len() - i,
    {
        i += 1;
    }
    i
}

/// Scan a digit run: the first position at or after `pos` holding no
/// digit.
#[verifier::loop_isolation(false)]
fn scan_digit_end(cs: &Vec<char>, pos: usize) -> (end: usize)
    requires
        pos <= cs@.len(),
    ensures
        end == digit_end(cs@, pos as int),
        pos <= end <= cs@.len(),
{
    let mut i: usize = pos;
    while i < cs.len() && is_digit_x(cs[i])
        invariant
            pos <= i <= cs@.len(),
            digit_end(cs@, pos as int) == digit_end(cs@, i as int),
        decreases cs@.len() - i,
    {
        i += 1;
    }
    i
}

/// Turn a query string into its token sequence, or report the first
/// lexical error. The result is exactly what `spec_tokens` describes:
/// token spans are character-accurate into the source, and a
/// terminating `Eof` sentinel closes the stream.
#[verifier::loop_isolation(false)]
#[verifier::rlimit(80)]
pub fn tokenize(query: &str) -> (r: Result<Vec<Token>, QueryError>)
    ensures
        match r {
            Ok(toks) => spec_tokens(query@, 0) == Ok::<Seq<TokModel>, ErrModel>(tok_models(toks@)),
            Err(e) => spec_tokens(query@, 0) == Err::<Seq<TokModel>, ErrModel>(e@),
        },
{
    let cs = str_to_chars(query);
    let ghost s = query@;
    let mut toks: Vec<Token> = Vec::new();
    let mut pos: usize = 0;
    while pos < cs.len()
        invariant
            pos <= cs@.len(),
            cs@ == s,
            spec_tokens(s, 0) == compose_toks(tok_models(toks@), spec_tokens(s, pos as int)),
        decreases cs@.len() - pos,
    {
        let c = cs[pos];
        if is_space_x(c) {
            pos += 1;
        } else if c == '|' || c == '(' || c == ')' || c == ',' {
            let kind = if c == '|' {
                TokenKind::Pipe
            } else if c == '(' {
                TokenKind::LParen
            } else if c == ')' {
                TokenKind::RParen
            } else {
                TokenKind::Comma
            };
            let t = Token { kind, span: Span { start: pos, end: pos + 1 } };
            proof {
                lemma_compose_push(tok_models(toks@), t@, spec_tokens(s, pos + 1 as int));
                assert(tok_models(toks@.push(t)) =~= tok_models(toks@).push(t@));
            }
            toks.push(t);
            pos += 1;
        } else if c == '.' {
            if pos + 1 < cs.len() && is_ident_start_x(cs[pos + 1]) {
                let end = scan_ident_end(&cs, pos + 1);
                let name = chars_range_string(&cs, pos + 1, end);
                let t = Token { kind: TokenKind::Selector(name), span: Span { start: pos, end } };
                proof {
                    lemma_ident_end(s, pos + 1 as int);
                    assert(adv(pos as int, end as int, s.len() as int) == end as int);
                    lemma_compose_push(tok_models(toks@), t@, spec_tokens(s, end as int));
                    assert(tok_models(toks@.push(t)) =~= tok_models(toks@).push(t@));
                }
                toks.push(t);
                pos = end;
            } else {
                let e = QueryError::at(
                    QueryErrorKind::LexError(LexErrorKind::InvalidChar('.')),
                    Span { start: pos, end: pos + 1 },
                );
                return Err(e);
            }
        } else if is_ident_start_x(c) {
            let end = scan_ident_end(&cs, pos);
            let name = chars_range_string(&cs, pos, end);
            let t = Token { kind: TokenKind::Ident(name), span: Span { start: pos, end } };
            proof {
                lemma_ident_end(s, pos + 1 as int);
                assert(ident_end(s, pos as int) == ident_end(s, pos + 1 as int));
                assert(adv(pos as int, end as int, s.len() as int) == end as int);
                lemma_compose_push(tok_models(toks@), t@, spec_tokens(s, end as int));
                assert(tok_models(toks@.push(t)) =~= tok_models(toks@).push(t@));
            }
            toks.push(t);
            pos = end;
        } else if is_digit_x(c) {
            let end = scan_digit_end(&cs, pos);
            proof {
                lemma_digit_end(s, pos as int);
                lemma_digit_end(s, pos + 1 as int);
                assert(digit_end(s, pos as int) == digit_end(s, pos + 1 as int));
            }
            let mut val: i64 = 0;
            let mut i: usize = pos;
            let mut too_large: bool = false;
            while i < end
                invariant
                    pos <= i <= end,
                    !too_large ==> val == digits_val(s.subrange(pos as int, i as int)),
                    !too_large ==> 0 <= val <= i64::MAX,
                    too_large ==> digits_val(s.subrange(pos as int, i as int)) > i64::MAX,
                decreases end - i,
            {
                let d: i64 = (cs[i] as u32 as i64) - 48;
                proof {
                    assert(is_digit(s[i as int]));
                    assert(0 <= d <= 9);
                    assert(s.subrange(pos as int, i + 1 as int).drop_last() =~= s.subrange(
                        pos as int,
                        i as int,
                    ));
                    lemma_digits_val_extend(s.subrange(pos as int, i + 1 as int));
                }
                if too_large {
                } else if val > (i64::MAX - d) / 10 {
                    proof {
                        assert(val * 10 + d > i64::MAX) by (nonlinear_arith)
                            requires
                                val > (i64::MAX - d) / 10,
                                0 <= d <= 9,
                                val >= 0,
                        ;
                    }
                    too_large = true;
                } else {
                    proof {
                        assert(val * 10 + d <= i64::MAX) by (nonlinear_arith)
                            requires
                                0 <= val <= (i64::MAX - d) / 10,
                                0 <= d <= 9,
                        ;
                    }
                    val = val * 10 + d;
                }
                i += 1;
            }
            if too_large {
                proof {
                    lemma_digits_val_monotone(s, pos as int, i as int, end as int);
                }
                let e = QueryError::at(
                    QueryErrorKind::LexError(LexErrorKind::NumberTooLarge),
                    Span { start: pos, end },
                );
                return Err(e);
            }
            let t = Token { kind: TokenKind::Num(val), span: Span { start: pos, end } };
            proof {
                assert(adv(pos as int, end as int, s.len() as int) == end as int);
                lemma_compose_push(tok_models(toks@), t@, spec_tokens(s, end as int));
                assert(tok_models(toks@.push(t)) =~= tok_models(toks@).push(t@));
            }
            toks.push(t);
            pos = end;
        } else if c == '"' {
            let mut content: Vec<char> = Vec::new();
            let mut i: usize = pos + 1;
            let mut after: usize = 0;
            let mut closed: bool = false;
            while !closed && i < cs.len()
                invariant
                    pos + 1 <= i <= cs@.len(),
                    !closed ==> (scan_str(s, i as int) matches ScanRes::Found(c2, a2)
                        ==> scan_str(s, pos + 1 as int) == ScanRes::Found(content@ + c2, a2)),
                    !closed ==> (scan_str(s, i as int) is Unterminated ==> scan_str(
                        s,
                        pos + 1 as int,
                    ) is Unterminated),
                    closed ==> scan_str(s, pos + 1 as int) == ScanRes::Found(
                        content@,
                        after as int,
                    ),
                    closed ==> pos < after <= cs@.len(),
                decreases cs@.len() - i + (if closed {
                    0int
                } else {
                    1int
                }),
            {
                let ch = cs[i];
                if ch == '"' {
                    after = i + 1;
                    proof {
                        assert(scan_str(s, i as int) == ScanRes::Found(
                            Seq::<char>::empty(),
                            i + 1 as int,
                        ));
                        assert(content@ + Seq::<char>::empty() =~= content@);
                    }
                    closed = true;
                } else if ch == '\\' {
                    if i + 1 >= cs.len() {
                        proof {
                            assert(scan_str(s, i as int) is Unterminated);
                        }
                        i = cs.len();
                    } else {
                        let e = cs[i + 1];
                        let resolved: char = if e == 'n' {
                            '\n'
                        } else if e == 't' {
                            '\t'
                        } else if e == 'r' {
                            '\r'
                        } else {
                            e
                        };
                        proof {
                            assert(resolved == esc_char(s[i + 1 as int]));
                            let res2 = scan_str(s, i + 2 as int);
                            if res2 is Found {
                                let c2 = res2->Found_0;
                                assert(content@ + (seq![esc_char(s[i + 1 as int])] + c2)
                                    =~= content@.push(esc_char(s[i + 1 as int])) + c2);
                            }
                        }
                        content.push(resolved);
                        i += 2;
                    }
                } else {
                    proof {
                        let res2 = scan_str(s, i + 1 as int);
                        if res2 is Found {
                            let c2 = res2->Found_0;
                            assert(content@ + (seq![s[i as int]] + c2) =~= content@.push(
                                s[i as int],
                            ) + c2);
                        }
                    }
                    content.push(ch);
                    i += 1;
                }
            }
            if !closed {
                proof {
                    assert(scan_str(s, i as int) is Unterminated);
                }
                let e = QueryError::at(
                    QueryErrorKind::LexError(LexErrorKind::UnterminatedString),
                    Span { start: pos, end: cs.len() },
                );
                return Err(e);
            }
            let text = chars_range_string(&content, 0, content.len());
            proof {
                assert(content@.subrange(0, content@.len() as int) =~= content@);
            }
            let t = Token { kind: TokenKind::Str(text), span: Span { start: pos, end: after } };
            proof {
                assert(adv(pos as int, after as int, s.len() as int) == after as int);
                lemma_compose_push(tok_models(toks@), t@, spec_tokens(s, after as int));
                assert(tok_models(toks@.push(t)) =~= tok_models(toks@).push(t@));
            }
            toks.push(t);
            pos = after;
        } else {
            let e = QueryError::at(
                QueryErrorKind::LexError(LexErrorKind::InvalidChar(c)),
                Span { start: pos, end: pos + 1 },
            );
            return Err(e);
        }
    }
    let eof = Token { kind: TokenKind::Eof, span: Span { start: pos, end: pos } };
    proof {
        assert(spec_tokens(s, pos as int) == Ok::<Seq<TokModel>, ErrModel>(seq![eof@]));
        assert(tok_models(toks@) + seq![eof@] =~= tok_models(toks@.push(eof)));
    }
    toks.push(eof);
    Ok(toks)
}

} // verus!
