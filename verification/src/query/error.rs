//! Query errors, each carrying a kind and, where one is known, a span
//! into the original query text.

use vstd::prelude::*;

verus! {

/// A half-open character range `start..end` into the query string,
/// used to point error messages at the offending text.
#[derive(Clone, Copy, Debug, PartialEq, Eq, Structural)]
pub struct Span {
    pub start: usize,
    pub end: usize,
}

/// What went wrong while scanning the query text.
#[derive(Clone, Copy, Debug, PartialEq, Eq, Structural)]
pub enum LexErrorKind {
    /// A character that starts no token.
    InvalidChar(char),
    /// A string literal with no closing quote.
    UnterminatedString,
    /// A numeric literal too large for the number type.
    NumberTooLarge,
}

/// What went wrong while parsing the token stream.
#[derive(Clone, Copy, Debug, PartialEq, Eq, Structural)]
pub enum ParseErrorKind {
    /// A token that no grammar rule expects at this point.
    UnexpectedToken,
    /// A `(` with no matching `)`.
    UnmatchedParen,
    /// A query with no stages at all.
    EmptyQuery,
    /// Leftover tokens after a complete query.
    TrailingTokens,
    /// A bare `|` inside a function-call argument.
    NestedPipe,
}

/// The taxonomy of query failures.
#[derive(Clone, Debug, PartialEq, Eq)]
pub enum QueryErrorKind {
    /// The query text could not be scanned.
    LexError(LexErrorKind),
    /// The token stream does not follow the grammar.
    ParseError(ParseErrorKind),
    /// A function call names no registered function.
    UnknownFunction(String),
    /// A selector names no registered extractor.
    UnknownSelector(String),
    /// A call's argument count lies outside the declared arity range.
    ArityError { min: usize, max: Option<usize>, got: usize },
    /// A stage received a value shape it cannot operate on.
    TypeError,
    /// A registered function or extractor failed internally.
    EvalError(String),
}

/// The ghost projection of a `QueryErrorKind`.
pub enum ErrKindModel {
    LexError(LexErrorKind),
    ParseError(ParseErrorKind),
    UnknownFunction(Seq<char>),
    UnknownSelector(Seq<char>),
    ArityError { min: int, max: Option<int>, got: int },
    TypeError,
    EvalError(Seq<char>),
}

impl View for QueryErrorKind {
    type V = ErrKindModel;

    open spec fn view(&self) -> ErrKindModel {
        match self {
            QueryErrorKind::LexError(k) => ErrKindModel::LexError(*k),
            QueryErrorKind::ParseError(k) => ErrKindModel::ParseError(*k),
            QueryErrorKind::UnknownFunction(n) => ErrKindModel::UnknownFunction(n@),
            QueryErrorKind::UnknownSelector(n) => ErrKindModel::UnknownSelector(n@),
            QueryErrorKind::ArityError { min, max, got } => ErrKindModel::ArityError {
                min: *min as int,
                max: match max {
                    Some(m) => Some(*m as int),
                    None => None,
                },
                got: *got as int,
            },
            QueryErrorKind::TypeError => ErrKindModel::TypeError,
            QueryErrorKind::EvalError(m) => ErrKindModel::EvalError(m@),
        }
    }
}

/// A query failure: its kind and, where known, where in the query text
/// it arose.
#[derive(Clone, Debug, PartialEq, Eq)]
pub struct QueryError {
    pub kind: QueryErrorKind,
    pub span: Option<Span>,
}

/// The ghost projection of a `QueryError`.
pub struct ErrModel {
    pub kind: ErrKindModel,
    pub span: Option<Span>,
}

impl View for QueryError {
    type V = ErrModel;

    open spec fn view(&self) -> ErrModel {
        ErrModel { kind: self.kind@, span: self.span }
    }
}

impl QueryError {
    /// An error at a known span.
    pub fn at(kind: QueryErrorKind, span: Span) -> (e: QueryError)
        ensures
            e@.kind == kind@,
            e@.span == Some(span),
    {
        QueryError { kind, span: Some(span) }
    }

    /// An error with no span.
    pub fn plain(kind: QueryErrorKind) -> (e: QueryError)
        ensures
            e@.kind == kind@,
            e@.span == None::<Span>,
    {
        QueryError { kind, span: None }
    }
}

} // verus!
