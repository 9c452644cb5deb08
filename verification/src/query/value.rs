//! The runtime value model: the tagged values that flow through every
//! pipeline stage, and their canonical textual projection.

use vstd::prelude::*;

use crate::document::NodeKind;
use crate::strutil::{chars_to_string, dec_int, i64_to_chars, push_char, str_to_chars};

verus! {

/// A reference to a located element of the document tree: the node's
/// index together with a snapshot of what the node shows.
///
/// `id` indexes the document's pre-order node arena, so later stages can
/// decompose the element further; the remaining fields let a value be
/// rendered without the document at hand.
#[derive(Debug, PartialEq, Eq)]
pub struct ElemRef {
    pub id: usize,
    pub kind: NodeKind,
    pub level: u8,
    pub text: String,
    pub target: String,
}

/// The ghost projection of an `ElemRef`.
pub struct ElemModel {
    pub id: int,
    pub kind: NodeKind,
    pub level: int,
    pub text: Seq<char>,
    pub target: Seq<char>,
}

impl View for ElemRef {
    type V = ElemModel;

    open spec fn view(&self) -> ElemModel {
        ElemModel {
            id: self.id as int,
            kind: self.kind,
            level: self.level as int,
            text: self.text@,
            target: self.target@,
        }
    }
}

/// A runtime value: the tagged union flowing through pipeline stages.
#[derive(Debug, PartialEq, Eq)]
pub enum Value {
    /// A text value.
    String(String),
    /// An integer value.
    Number(i64),
    /// A boolean value.
    Bool(bool),
    /// An ordered sequence of values.
    List(Vec<Value>),
    /// The absent value.
    Null,
    /// A structural reference to a located document element.
    Node(ElemRef),
}

/// The tag of a `Value`.
#[derive(Clone, Copy, Debug, PartialEq, Eq, Structural)]
pub enum ValueKind {
    String,
    Number,
    Bool,
    List,
    Null,
    Node,
}

/// The ghost projection of a `Value`.
pub enum ValModel {
    String(Seq<char>),
    Number(int),
    Bool(bool),
    List(Seq<ValModel>),
    Null,
    Node(ElemModel),
}

/// The ghost projection of a single value.
pub open spec fn val_model(v: Value) -> ValModel
    decreases v,
{
    match v {
        Value::String(s) => ValModel::String(s@),
        Value::Number(n) => ValModel::Number(n as int),
        Value::Bool(b) => ValModel::Bool(b),
        Value::Null => ValModel::Null,
        Value::Node(r) => ValModel::Node(r@),
        Value::List(items) => ValModel::List(val_models(items@)),
    }
}

/// The ghost projection of a sequence of values, element for element.
pub open spec fn val_models(s: Seq<Value>) -> Seq<ValModel>
    decreases s,
{
    if s.len() == 0 {
        Seq::empty()
    } else {
        seq![val_model(s[0])] + val_models(s.drop_first())
    }
}

/// `val_models` maps `val_model` over the sequence, index by index.
pub broadcast proof fn lemma_val_models_index(s: Seq<Value>)
    ensures
        (#[trigger] val_models(s)).len() == s.len(),
        forall|i: int| 0 <= i < s.len() ==> val_models(s)[i] == val_model(s[i]),
    decreases s,
{
    if s.len() > 0 {
        lemma_val_models_index(s.drop_first());
    }
}

impl View for Value {
    type V = ValModel;

    open spec fn view(&self) -> ValModel {
        val_model(*self)
    }
}

impl Value {
    /// The tag of this value.
    pub fn kind(&self) -> (k: ValueKind)
        ensures
            k == ValueKind::String <==> self@ is String,
            k == ValueKind::Number <==> self@ is Number,
            k == ValueKind::Bool <==> self@ is Bool,
            k == ValueKind::List <==> self@ is List,
            k == ValueKind::Null <==> self@ is Null,
            k == ValueKind::Node <==> self@ is Node,
    {
        match self {
            Value::String(_) => ValueKind::String,
            Value::Number(_) => ValueKind::Number,
            Value::Bool(_) => ValueKind::Bool,
            Value::List(_) => ValueKind::List,
            Value::Null => ValueKind::Null,
            Value::Node(_) => ValueKind::Node,
        }
    }

    /// A deep copy with the same projection.
    #[verifier::loop_isolation(false)]
    pub fn duplicate(&self) -> (r: Value)
        ensures
            r@ == self@,
        decreases self,
    {
        match self {
            Value::String(s) => Value::String(s.clone()),
            Value::Number(n) => Value::Number(*n),
            Value::Bool(b) => Value::Bool(*b),
            Value::Null => Value::Null,
            Value::Node(r) => Value::Node(
                ElemRef {
                    id: r.id,
                    kind: r.kind,
                    level: r.level,
                    text: r.text.clone(),
                    target: r.target.clone(),
                },
            ),
            Value::List(items) => {
                let mut out: Vec<Value> = Vec::new();
                let mut i: usize = 0;
                while i < items.len()
                    invariant
                        i <= items@.len(),
                        out@.len() == i,
                        forall|k: int| 0 <= k < i ==> #[trigger] out@[k]@ == items@[k]@,
                    decreases items@.len() - i,
                {
                    proof {
                        broadcast use vstd::std_specs::vec::axiom_vec_decreases_to_view;
                        broadcast use vstd::seq::axiom_seq_index_decreases;

                        assert(decreases_to!(*self => *items));
                        assert(decreases_to!(*items => items@));
                        assert(decreases_to!(items@ => items@[i as int]));
                    }
                    let d = items[i].duplicate();
                    out.push(d);
                    i += 1;
                }
                proof {
                    lemma_val_models_index(out@);
                    lemma_val_models_index(items@);
                    assert forall|k: int| 0 <= k < items@.len() implies val_models(out@)[k]
                        == val_models(items@)[k] by {
                        assert(out@[k]@ == items@[k]@);
                    }
                    assert(val_models(out@) =~= val_models(items@));
                }
                Value::List(out)
            },
        }
    }

    /// The canonical string projection of this value.
    #[verifier::loop_isolation(false)]
    pub fn to_text(&self) -> (r: String)
        ensures
            r@ == text_of(self@),
        decreases self,
    {
        match self {
            Value::String(s) => s.clone(),
            Value::Number(n) => {
                let cs = i64_to_chars(*n);
                chars_to_string(&cs)
            },
            Value::Bool(b) => {
                if *b {
                    String::from_str("true")
                } else {
                    String::from_str("false")
                }
            },
            Value::Null => String::from_str("null"),
            Value::Node(r) => r.text.clone(),
            Value::List(items) => {
                let mut out = String::new();
                let mut i: usize = 0;
                let ghost texts = texts_of(val_models(items@));
                proof {
                    lemma_val_models_index(items@);
                    lemma_texts_of_index(val_models(items@));
                }
                while i < items.len()
                    invariant
                        i <= items@.len(),
                        texts == texts_of(val_models(items@)),
                        texts.len() == items@.len(),
                        forall|k: int| 0 <= k < items@.len() ==> texts[k] == text_of(
                            #[trigger] items@[k]@,
                        ),
                        out@ == join_texts(texts.take(i as int)),
                    decreases items@.len() - i,
                {
                    if i > 0 {
                        out.append(", ");
                    }
                    proof {
                        broadcast use vstd::std_specs::vec::axiom_vec_decreases_to_view;
                        broadcast use vstd::seq::axiom_seq_index_decreases;

                        assert(decreases_to!(*self => *items));
                        assert(decreases_to!(*items => items@));
                        assert(decreases_to!(items@ => items@[i as int]));
                    }
                    let t = items[i].to_text();
                    out.append(t.as_str());
                    proof {
                        lemma_join_texts_push(texts.take(i as int), texts[i as int]);
                        assert(texts.take(i as int).push(texts[i as int]) =~= texts.take(
                            i + 1 as int,
                        ));
                    }
                    i += 1;
                }
                proof {
                    assert(texts.take(items@.len() as int) =~= texts);
                }
                out
            },
        }
    }
}

/// The canonical textual projection of a value model: strings are
/// themselves, numbers render in decimal, booleans as `true`/`false`,
/// the absent value as `null`, structural references as their textual
/// content, and lists join their elements' projections with `", "`.
pub open spec fn text_of(v: ValModel) -> Seq<char>
    decreases v,
{
    match v {
        ValModel::String(s) => s,
        ValModel::Number(n) => dec_int(n),
        ValModel::Bool(b) => if b {
            "true"@
        } else {
            "false"@
        },
        ValModel::Null => "null"@,
        ValModel::Node(r) => r.text,
        ValModel::List(items) => join_texts(texts_of(items)),
    }
}

/// The textual projections of a sequence of value models.
pub open spec fn texts_of(s: Seq<ValModel>) -> Seq<Seq<char>>
    decreases s,
{
    if s.len() == 0 {
        Seq::empty()
    } else {
        seq![text_of(s[0])] + texts_of(s.drop_first())
    }
}

/// `texts_of` maps `text_of` over the sequence, index by index.
pub broadcast proof fn lemma_texts_of_index(s: Seq<ValModel>)
    ensures
        (#[trigger] texts_of(s)).len() == s.len(),
        forall|i: int| 0 <= i < s.len() ==> texts_of(s)[i] == text_of(s[i]),
    decreases s,
{
    if s.len() > 0 {
        lemma_texts_of_index(s.drop_first());
    }
}

/// Join already-projected texts with the separator `sep`.
pub open spec fn join_with(texts: Seq<Seq<char>>, sep: Seq<char>) -> Seq<char>
    decreases texts.len(),
{
    if texts.len() == 0 {
        Seq::empty()
    } else if texts.len() == 1 {
        texts[0]
    } else {
        texts[0] + sep + join_with(texts.drop_first(), sep)
    }
}

/// Appending one more text extends the joined form by the separator
/// and that text (or is that text alone when nothing came before).
pub proof fn lemma_join_with_push(texts: Seq<Seq<char>>, t: Seq<char>, sep: Seq<char>)
    ensures
        join_with(texts.push(t), sep) == if texts.len() == 0 {
            t
        } else {
            join_with(texts, sep) + sep + t
        },
    decreases texts.len(),
{
    let p = texts.push(t);
    if texts.len() == 0 {
        assert(p.len() == 1);
        assert(p[0] == t);
    } else if texts.len() == 1 {
        assert(p.drop_first() =~= seq![t]);
        assert(join_with(p, sep) == p[0] + sep + join_with(p.drop_first(), sep));
        assert(join_with(texts, sep) == texts[0]);
        assert(p[0] == texts[0]);
    } else {
        lemma_join_with_push(texts.drop_first(), t, sep);
        assert(p.drop_first() =~= texts.drop_first().push(t));
        assert(join_with(p, sep) == p[0] + sep + join_with(p.drop_first(), sep));
    }
}

/// Join already-projected texts with `", "`.
pub open spec fn join_texts(texts: Seq<Seq<char>>) -> Seq<char> {
    join_with(texts, ", "@)
}

/// Appending one more text extends the joined form by a separator and
/// that text (or is that text alone when nothing came before).
pub proof fn lemma_join_texts_push(texts: Seq<Seq<char>>, t: Seq<char>)
    ensures
        join_texts(texts.push(t)) == if texts.len() == 0 {
            t
        } else {
            join_texts(texts) + ", "@ + t
        },
{
    lemma_join_with_push(texts, t, ", "@);
}

} // verus!
