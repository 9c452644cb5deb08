//! The function and extractor registry: a name-keyed table of the
//! operations a query may use, with declared arity ranges.
//!
//! Built-in operations are closed variants with fixed, fully specified
//! semantics. User extensions register a name here and supply the
//! behaviour through an [`Extension`] implementation; the engine
//! dispatches to it by name. Later registrations win, so extensions may
//! override built-ins.

use vstd::prelude::*;

use crate::document::Document;
use crate::query::error::QueryError;
use crate::query::value::Value;

verus! {

/// A built-in extractor: the implementation behind a selector step.
#[derive(Clone, Copy, Debug, PartialEq, Eq, Structural)]
pub enum BuiltinExtractor {
    /// Headings of one level: `.h1` … `.h6`.
    Heading(u8),
    /// Headings of every level: `.heading`.
    AnyHeading,
    /// Paragraphs: `.p`, `.paragraph`.
    Paragraph,
    /// Hyperlinks: `.link`.
    Link,
    /// Tables: `.table`.
    Table,
    /// Code blocks: `.code`.
    CodeBlock,
    /// The textual projection of each current value: `.text`.
    Text,
    /// The destination of a structural link reference: `.target`.
    Target,
    /// The level of a structural heading reference: `.level`.
    Level,
}

/// What implements a selector step: a built-in, or the registry's
/// extension, dispatched by name.
#[derive(Clone, Copy, Debug, PartialEq, Eq, Structural)]
pub enum ExtractorImpl {
    Builtin(BuiltinExtractor),
    External,
}

/// A built-in query function. `Upper`, `Lower` and `Trim` map over the
/// current values one by one; `Count`, `First`, `Last` and `Join`
/// reduce the whole current set.
#[derive(Clone, Copy, Debug, PartialEq, Eq, Structural)]
pub enum BuiltinFn {
    Upper,
    Lower,
    Trim,
    Count,
    First,
    Last,
    Join,
}

/// What implements a query function: a built-in, or the registry's
/// extension, dispatched by name.
#[derive(Clone, Copy, Debug, PartialEq, Eq, Structural)]
pub enum FnImpl {
    Builtin(BuiltinFn),
    External,
}

/// The inclusive argument-count range a function accepts; `max` of
/// `None` leaves the range open-ended.
#[derive(Clone, Copy, Debug, PartialEq, Eq)]
pub struct ArityRange {
    pub min: usize,
    pub max: Option<usize>,
}

/// The ghost projection of an arity range.
pub struct ArityModel {
    pub min: int,
    pub max: Option<int>,
}

impl View for ArityRange {
    type V = ArityModel;

    open spec fn view(&self) -> ArityModel {
        ArityModel {
            min: self.min as int,
            max: match self.max {
                Some(m) => Some(m as int),
                None => None,
            },
        }
    }
}

impl ArityRange {
    /// The range accepting exactly `n` arguments.
    pub fn exactly(n: usize) -> (r: ArityRange)
        ensures
            r@.min == n as int,
            r@.max == Some(n as int),
    {
        ArityRange { min: n, max: Some(n) }
    }

    /// The inclusive range `min..=max`.
    pub fn between(min: usize, max: usize) -> (r: ArityRange)
        ensures
            r@.min == min as int,
            r@.max == Some(max as int),
    {
        ArityRange { min, max: Some(max) }
    }

    /// Does the range admit `n` arguments?
    pub open spec fn spec_admits(self, n: int) -> bool {
        self@.min <= n && match self@.max {
            Some(m) => n <= m,
            None => true,
        }
    }

    /// Does the range admit `n` arguments?
    pub fn admits(&self, n: usize) -> (r: bool)
        ensures
            r == self.spec_admits(n as int),
    {
        if n < self.min {
            return false;
        }
        match self.max {
            Some(m) => n <= m,
            None => true,
        }
    }
}

/// A registry entry for a query function: its implementation and the
/// argument counts it accepts.
#[derive(Clone, Copy, Debug, PartialEq, Eq)]
pub struct Function {
    pub body: FnImpl,
    pub arity: ArityRange,
}

/// The ghost projection of a function entry.
pub struct FnModel {
    pub body: FnImpl,
    pub arity: ArityModel,
}

impl View for Function {
    type V = FnModel;

    open spec fn view(&self) -> FnModel {
        FnModel { body: self.body, arity: self.arity@ }
    }
}

impl Function {
    /// A function entry with the given implementation and arity range.
    pub fn new(body: FnImpl, arity: ArityRange) -> (f: Function)
        ensures
            f@.body == body,
            f@.arity == arity@,
    {
        Function { body, arity }
    }

    /// An extension-implemented function with the given arity range.
    pub fn external(arity: ArityRange) -> (f: Function)
        ensures
            f@.body == FnImpl::External,
            f@.arity == arity@,
    {
        Function { body: FnImpl::External, arity }
    }
}

/// The per-execution evaluation context handed to extension code: a
/// read-only view of the document under query.
pub struct EvalContext<'a> {
    pub doc: &'a Document,
}

/// User-supplied behaviour for externally registered functions and
/// extractors, dispatched by the registered name.
///
/// `call` runs once per item of the current value set, in order, with
/// the current item first in `args` followed by the evaluated argument
/// expressions; what it returns is concatenated into the stage's
/// output. `extract` implements a selector step: it is given the
/// document and returns the matching values in document order. Nothing
/// is assumed about either method; whatever they return, the engine's
/// ordering and error discipline still hold.
pub trait Extension {
    /// Run the externally registered function `name`.
    fn call(&self, name: &str, args: &Vec<Value>, ctx: &EvalContext<'_>) -> Result<
        Vec<Value>,
        QueryError,
    >;

    /// Run the externally registered extractor `name`.
    fn extract(&self, name: &str, ctx: &EvalContext<'_>) -> Result<Vec<Value>, QueryError>;
}

/// The empty extension behind the default registry: it implements no
/// names. The engine never reaches it through `Registry::with_builtins`,
/// since that table registers no external entry.
pub struct NoExtension;

impl Extension for NoExtension {
    fn call(&self, name: &str, args: &Vec<Value>, ctx: &EvalContext<'_>) -> Result<
        Vec<Value>,
        QueryError,
    > {
        Err(QueryError::plain(crate::query::error::QueryErrorKind::EvalError(String::new())))
    }

    fn extract(&self, name: &str, ctx: &EvalContext<'_>) -> Result<Vec<Value>, QueryError> {
        Err(QueryError::plain(crate::query::error::QueryErrorKind::EvalError(String::new())))
    }
}

/// The ghost projection of a registry: its two name-keyed tables.
pub struct RegModel {
    pub functions: Seq<(Seq<char>, FnModel)>,
    pub extractors: Seq<(Seq<char>, ExtractorImpl)>,
}

/// The function entry registered last under `name`.
pub open spec fn lookup_fn_in(fs: Seq<(Seq<char>, FnModel)>, name: Seq<char>) -> Option<FnModel>
    decreases fs.len(),
{
    if fs.len() == 0 {
        None
    } else if fs.last().0 == name {
        Some(fs.last().1)
    } else {
        lookup_fn_in(fs.drop_last(), name)
    }
}

/// The extractor registered last under `name`.
pub open spec fn lookup_ext_in(es: Seq<(Seq<char>, ExtractorImpl)>, name: Seq<char>) -> Option<
    ExtractorImpl,
>
    decreases es.len(),
{
    if es.len() == 0 {
        None
    } else if es.last().0 == name {
        Some(es.last().1)
    } else {
        lookup_ext_in(es.drop_last(), name)
    }
}

/// The registry: name-keyed tables of functions and extractors, and
/// the extension implementing the externally registered ones. The
/// tables are scanned from the most recent entry, so the last
/// registration under a name wins.
pub struct Registry<X> {
    functions: Vec<(String, Function)>,
    extractors: Vec<(String, ExtractorImpl)>,
    extension: X,
}

impl<X> View for Registry<X> {
    type V = RegModel;

    closed spec fn view(&self) -> RegModel {
        RegModel {
            functions: Seq::new(
                self.functions@.len(),
                |i: int| (self.functions@[i].0@, self.functions@[i].1@),
            ),
            extractors: Seq::new(
                self.extractors@.len(),
                |i: int| (self.extractors@[i].0@, self.extractors@[i].1),
            ),
        }
    }
}

/// The function entry a registry resolves `name` to.
pub open spec fn reg_fn(reg: RegModel, name: Seq<char>) -> Option<FnModel> {
    lookup_fn_in(reg.functions, name)
}

/// The extractor a registry resolves `name` to.
pub open spec fn reg_ext(reg: RegModel, name: Seq<char>) -> Option<ExtractorImpl> {
    lookup_ext_in(reg.extractors, name)
}

impl<X> Registry<X> {
    /// An empty registry around the given extension.
    pub fn empty_with(extension: X) -> (r: Registry<X>)
        ensures
            r@.functions.len() == 0,
            r@.extractors.len() == 0,
    {
        let r = Registry { functions: Vec::new(), extractors: Vec::new(), extension };
        proof {
            assert(r@.functions =~= Seq::<(Seq<char>, FnModel)>::empty());
            assert(r@.extractors =~= Seq::<(Seq<char>, ExtractorImpl)>::empty());
        }
        r
    }

    /// Borrow the extension.
    pub fn extension(&self) -> &X {
        &self.extension
    }

    /// Register (or override) the function `name`.
    pub fn register_function(&mut self, name: &str, f: Function)
        ensures
            final(self)@.functions == old(self)@.functions.push((name@, f@)),
            final(self)@.extractors == old(self)@.extractors,
    {
        let owned = String::from_str(name);
        self.functions.push((owned, f));
        proof {
            assert(self@.functions =~= old(self)@.functions.push((name@, f@)));
            assert(self@.extractors =~= old(self)@.extractors);
        }
    }

    /// Register (or override) the extractor `name`.
    pub fn register_extractor(&mut self, name: &str, imp: ExtractorImpl)
        ensures
            final(self)@.extractors == old(self)@.extractors.push((name@, imp)),
            final(self)@.functions == old(self)@.functions,
    {
        let owned = String::from_str(name);
        self.extractors.push((owned, imp));
        proof {
            assert(self@.extractors =~= old(self)@.extractors.push((name@, imp)));
            assert(self@.functions =~= old(self)@.functions);
        }
    }

    /// Resolve the function entry registered last under `name`.
    pub fn lookup_function(&self, name: &str) -> (r: Option<Function>)
        ensures
            match r {
                Some(f) => reg_fn(self@, name@) == Some(f@),
                None => reg_fn(self@, name@) == None::<FnModel>,
            },
    {
        let owned = String::from_str(name);
        let mut i: usize = self.functions.len();
        proof {
            assert(self@.functions.take(i as int) =~= self@.functions);
        }
        while i > 0
            invariant
                i <= self.functions@.len(),
                owned@ == name@,
                lookup_fn_in(self@.functions, name@) == lookup_fn_in(
                    self@.functions.take(i as int),
                    name@,
                ),
            decreases i,
        {
            i = i - 1;
            if self.functions[i].0 == owned {
                proof {
                    assert(self@.functions.take(i + 1 as int).last() == (
                        self.functions@[i as int].0@,
                        self.functions@[i as int].1@,
                    ));
                }
                return Some(self.functions[i].1);
            }
            proof {
                assert(self@.functions.take(i + 1 as int).drop_last() =~= self@.functions.take(
                    i as int,
                ));
            }
        }
        proof {
            assert(self@.functions.take(0) =~= Seq::<(Seq<char>, FnModel)>::empty());
        }
        None
    }

    /// Resolve the extractor registered last under `name`.
    pub fn lookup_extractor(&self, name: &str) -> (r: Option<ExtractorImpl>)
        ensures
            match r {
                Some(x) => reg_ext(self@, name@) == Some(x),
                None => reg_ext(self@, name@) == None::<ExtractorImpl>,
            },
    {
        let owned = String::from_str(name);
        let mut i: usize = self.extractors.len();
        proof {
            assert(self@.extractors.take(i as int) =~= self@.extractors);
        }
        while i > 0
            invariant
                i <= self.extractors@.len(),
                owned@ == name@,
                lookup_ext_in(self@.extractors, name@) == lookup_ext_in(
                    self@.extractors.take(i as int),
                    name@,
                ),
            decreases i,
        {
            i = i - 1;
            if self.extractors[i].0 == owned {
                proof {
                    assert(self@.extractors.take(i + 1 as int).last() == (
                        self.extractors@[i as int].0@,
                        self.extractors@[i as int].1,
                    ));
                }
                return Some(self.extractors[i].1);
            }
            proof {
                assert(self@.extractors.take(i + 1 as int).drop_last() =~= self@.extractors.take(
                    i as int,
                ));
            }
        }
        proof {
            assert(self@.extractors.take(0) =~= Seq::<(Seq<char>, ExtractorImpl)>::empty());
        }
        None
    }
}

/// The extractor table of the default registry.
pub open spec fn builtin_extractors() -> Seq<(Seq<char>, ExtractorImpl)> {
    seq![
        ("h1"@, ExtractorImpl::Builtin(BuiltinExtractor::Heading(1))),
        ("h2"@, ExtractorImpl::Builtin(BuiltinExtractor::Heading(2))),
        ("h3"@, ExtractorImpl::Builtin(BuiltinExtractor::Heading(3))),
        ("h4"@, ExtractorImpl::Builtin(BuiltinExtractor::Heading(4))),
        ("h5"@, ExtractorImpl::Builtin(BuiltinExtractor::Heading(5))),
        ("h6"@, ExtractorImpl::Builtin(BuiltinExtractor::Heading(6))),
        ("heading"@, ExtractorImpl::Builtin(BuiltinExtractor::AnyHeading)),
        ("p"@, ExtractorImpl::Builtin(BuiltinExtractor::Paragraph)),
        ("paragraph"@, ExtractorImpl::Builtin(BuiltinExtractor::Paragraph)),
        ("link"@, ExtractorImpl::Builtin(BuiltinExtractor::Link)),
        ("table"@, ExtractorImpl::Builtin(BuiltinExtractor::Table)),
        ("code"@, ExtractorImpl::Builtin(BuiltinExtractor::CodeBlock)),
        ("text"@, ExtractorImpl::Builtin(BuiltinExtractor::Text)),
        ("target"@, ExtractorImpl::Builtin(BuiltinExtractor::Target)),
        ("level"@, ExtractorImpl::Builtin(BuiltinExtractor::Level)),
    ]
}

/// The function table of the default registry.
pub open spec fn builtin_functions() -> Seq<(Seq<char>, FnModel)> {
    seq![
        ("upper"@, FnModel { body: FnImpl::Builtin(BuiltinFn::Upper), arity: ArityModel { min: 0, max: Some(0) } }),
        ("lower"@, FnModel { body: FnImpl::Builtin(BuiltinFn::Lower), arity: ArityModel { min: 0, max: Some(0) } }),
        ("trim"@, FnModel { body: FnImpl::Builtin(BuiltinFn::Trim), arity: ArityModel { min: 0, max: Some(0) } }),
        ("count"@, FnModel { body: FnImpl::Builtin(BuiltinFn::Count), arity: ArityModel { min: 0, max: Some(0) } }),
        ("first"@, FnModel { body: FnImpl::Builtin(BuiltinFn::First), arity: ArityModel { min: 0, max: Some(0) } }),
        ("last"@, FnModel { body: FnImpl::Builtin(BuiltinFn::Last), arity: ArityModel { min: 0, max: Some(0) } }),
        ("join"@, FnModel { body: FnImpl::Builtin(BuiltinFn::Join), arity: ArityModel { min: 0, max: Some(1) } }),
    ]
}

impl Registry<NoExtension> {
    /// The default registry: the built-in extractors for the standard
    /// element categories and projections, and the built-in string and
    /// sequence functions.
    pub fn with_builtins() -> (r: Registry<NoExtension>)
        ensures
            r@.extractors == builtin_extractors(),
            r@.functions == builtin_functions(),
    {
        Registry::with_builtins_and(NoExtension)
    }
}

impl<X> Registry<X> {
    /// The default registry around a custom extension: the built-in
    /// tables, ready for externally implemented names to be added.
    pub fn with_builtins_and(extension: X) -> (r: Registry<X>)
        ensures
            r@.extractors == builtin_extractors(),
            r@.functions == builtin_functions(),
    {
        let mut r = Registry::empty_with(extension);
        r.register_extractor("h1", ExtractorImpl::Builtin(BuiltinExtractor::Heading(1)));
        r.register_extractor("h2", ExtractorImpl::Builtin(BuiltinExtractor::Heading(2)));
        r.register_extractor("h3", ExtractorImpl::Builtin(BuiltinExtractor::Heading(3)));
        r.register_extractor("h4", ExtractorImpl::Builtin(BuiltinExtractor::Heading(4)));
        r.register_extractor("h5", ExtractorImpl::Builtin(BuiltinExtractor::Heading(5)));
        r.register_extractor("h6", ExtractorImpl::Builtin(BuiltinExtractor::Heading(6)));
        r.register_extractor("heading", ExtractorImpl::Builtin(BuiltinExtractor::AnyHeading));
        r.register_extractor("p", ExtractorImpl::Builtin(BuiltinExtractor::Paragraph));
        r.register_extractor("paragraph", ExtractorImpl::Builtin(BuiltinExtractor::Paragraph));
        r.register_extractor("link", ExtractorImpl::Builtin(BuiltinExtractor::Link));
        r.register_extractor("table", ExtractorImpl::Builtin(BuiltinExtractor::Table));
        r.register_extractor("code", ExtractorImpl::Builtin(BuiltinExtractor::CodeBlock));
        r.register_extractor("text", ExtractorImpl::Builtin(BuiltinExtractor::Text));
        r.register_extractor("target", ExtractorImpl::Builtin(BuiltinExtractor::Target));
        r.register_extractor("level", ExtractorImpl::Builtin(BuiltinExtractor::Level));
        r.register_function("upper", Function::new(FnImpl::Builtin(BuiltinFn::Upper), ArityRange::exactly(0)));
        r.register_function("lower", Function::new(FnImpl::Builtin(BuiltinFn::Lower), ArityRange::exactly(0)));
        r.register_function("trim", Function::new(FnImpl::Builtin(BuiltinFn::Trim), ArityRange::exactly(0)));
        r.register_function("count", Function::new(FnImpl::Builtin(BuiltinFn::Count), ArityRange::exactly(0)));
        r.register_function("first", Function::new(FnImpl::Builtin(BuiltinFn::First), ArityRange::exactly(0)));
        r.register_function("last", Function::new(FnImpl::Builtin(BuiltinFn::Last), ArityRange::exactly(0)));
        r.register_function("join", Function::new(FnImpl::Builtin(BuiltinFn::Join), ArityRange::between(0, 1)));
        proof {
            assert(r@.extractors =~= builtin_extractors());
            assert(r@.functions =~= builtin_functions());
        }
        r
    }
}

} // verus!
