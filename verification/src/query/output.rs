//! The output formatter: renders a sequence of query result values
//! into one of several textual representations, each a pure function
//! of the value sequence.

use vstd::prelude::*;

use crate::document::NodeKind;
use crate::query::value::{
    join_with, lemma_join_with_push, lemma_val_models_index, text_of, texts_of, val_models,
    ElemModel, ValModel, Value,
};
use crate::strutil::{chars_to_string, dec_int, i64_to_chars, push_char, str_to_chars};

verus! {

/// How query results are rendered.
#[derive(Clone, Copy, Debug, PartialEq, Eq, Structural)]
pub enum OutputFormat {
    /// One value's text projection per line.
    Plain,
    /// A compact JSON array.
    Json,
    /// An indented JSON array, one element per line.
    JsonPretty,
    /// One JSON value per line, newline-delimited.
    JsonLines,
    /// Structural references re-rendered in their markdown-like form.
    Markdown,
    /// A box-drawing listing for structural references; plain text for
    /// scalar values.
    Tree,
}

impl Default for OutputFormat {
    /// The default rendering is plain text.
    fn default() -> (r: OutputFormat)
        ensures
            r == OutputFormat::Plain,
    {
        OutputFormat::Plain
    }
}

/// The character for one hexadecimal digit.
pub open spec fn hex_digit(d: nat) -> char {
    if d % 16 < 10 {
        ((d % 16) + ('0' as nat)) as char
    } else {
        ((d % 16) - 10 + ('a' as nat)) as char
    }
}

/// The JSON escape of one character: the named short escapes, a
/// `\u00XX` form for every other control character, and the
/// character itself otherwise.
pub open spec fn esc_json(c: char) -> Seq<char> {
    if c == '"' {
        seq!['\\', '"']
    } else if c == '\\' {
        seq!['\\', '\\']
    } else if c == '\n' {
        seq!['\\', 'n']
    } else if c == '\t' {
        seq!['\\', 't']
    } else if c == '\r' {
        seq!['\\', 'r']
    } else if (c as u32) < 32 {
        seq!['\\', 'u', '0', '0', hex_digit((c as u32 / 16) as nat), hex_digit(
            (c as u32 % 16) as nat,
        )]
    } else {
        seq![c]
    }
}

/// The JSON escape of a whole string body.
pub open spec fn json_escape(s: Seq<char>) -> Seq<char>
    decreases s.len(),
{
    if s.len() == 0 {
        Seq::empty()
    } else {
        esc_json(s[0]) + json_escape(s.drop_first())
    }
}

/// Escaping one more character appends its escape.
pub proof fn lemma_json_escape_push(s: Seq<char>, c: char)
    ensures
        json_escape(s.push(c)) == json_escape(s) + esc_json(c),
    decreases s.len(),
{
    let p = s.push(c);
    if s.len() == 0 {
        assert(p.len() == 1 && p[0] == c);
        assert(p.drop_first() =~= Seq::<char>::empty());
        assert(json_escape(p.drop_first()) =~= Seq::<char>::empty());
        assert(json_escape(p) == esc_json(c) + json_escape(p.drop_first()));
        assert(esc_json(c) + Seq::<char>::empty() =~= esc_json(c));
        assert(json_escape(s) + esc_json(c) =~= esc_json(c));
    } else {
        lemma_json_escape_push(s.drop_first(), c);
        assert(p.drop_first() =~= s.drop_first().push(c));
        assert(json_escape(p) == esc_json(p[0]) + json_escape(s.drop_first().push(c)));
        assert(esc_json(s[0]) + (json_escape(s.drop_first()) + esc_json(c)) =~= (esc_json(s[0])
            + json_escape(s.drop_first())) + esc_json(c));
    }
}

/// A JSON string literal: the escaped body in double quotes.
pub open spec fn json_string(s: Seq<char>) -> Seq<char> {
    seq!['"'] + json_escape(s) + seq!['"']
}

/// The canonical name of a node category.
pub open spec fn kind_name(k: NodeKind) -> Seq<char> {
    match k {
        NodeKind::Root => "root"@,
        NodeKind::Heading => "heading"@,
        NodeKind::Paragraph => "paragraph"@,
        NodeKind::Link => "link"@,
        NodeKind::Table => "table"@,
        NodeKind::CodeBlock => "code"@,
        NodeKind::Text => "text"@,
    }
}

/// The compact JSON rendering of one value. A structural reference
/// renders as an object holding its category, level, text and target.
pub open spec fn json_of(v: ValModel) -> Seq<char>
    decreases v,
{
    match v {
        ValModel::String(s) => json_string(s),
        ValModel::Number(n) => dec_int(n),
        ValModel::Bool(b) => if b {
            "true"@
        } else {
            "false"@
        },
        ValModel::Null => "null"@,
        ValModel::Node(e) => json_elem(e),
        ValModel::List(items) => seq!['['] + join_with(jsons_of(items), ","@) + seq![']'],
    }
}

/// The JSON object for a structural reference.
pub open spec fn json_elem(e: ElemModel) -> Seq<char> {
    "{\"kind\":"@ + json_string(kind_name(e.kind)) + ",\"level\":"@ + dec_int(e.level)
        + ",\"text\":"@ + json_string(e.text) + ",\"target\":"@ + json_string(e.target) + "}"@
}

/// The compact JSON renderings of a sequence of values.
pub open spec fn jsons_of(vs: Seq<ValModel>) -> Seq<Seq<char>>
    decreases vs,
{
    if vs.len() == 0 {
        Seq::empty()
    } else {
        seq![json_of(vs[0])] + jsons_of(vs.drop_first())
    }
}

/// `jsons_of` maps `json_of` over the sequence, index by index.
pub proof fn lemma_jsons_of_index(vs: Seq<ValModel>)
    ensures
        jsons_of(vs).len() == vs.len(),
        forall|i: int| 0 <= i < vs.len() ==> jsons_of(vs)[i] == json_of(vs[i]),
    decreases vs,
{
    if vs.len() > 0 {
        lemma_jsons_of_index(vs.drop_first());
    }
}

/// The `#` run opening a heading of the given level.
pub open spec fn hashes(n: int) -> Seq<char>
    decreases n,
{
    if n <= 0 {
        Seq::empty()
    } else {
        seq!['#'] + hashes(n - 1)
    }
}

/// The markdown-like rendering of one value: headings get their `#`
/// run back, links their `[text](target)` form, code blocks their
/// fences; anything else renders as its text projection.
pub open spec fn md_of(v: ValModel) -> Seq<char> {
    match v {
        ValModel::Node(e) => match e.kind {
            NodeKind::Heading => hashes(e.level) + seq![' '] + e.text,
            NodeKind::Link => seq!['['] + e.text + "]("@ + e.target + seq![')'],
            NodeKind::CodeBlock => "```\n"@ + e.text + "\n```"@,
            _ => e.text,
        },
        _ => text_of(v),
    }
}

/// The tree-listing rendering of one value: structural references get
/// a box-drawing marker, their category and their text; scalar values
/// fall back to their text projection.
pub open spec fn tree_of(v: ValModel) -> Seq<char> {
    match v {
        ValModel::Node(e) => "├─ "@ + kind_name(e.kind) + ": "@ + e.text,
        _ => text_of(v),
    }
}

/// The renderings of each value under a per-value format.
pub open spec fn lines_of(vs: Seq<ValModel>, fmt: OutputFormat) -> Seq<Seq<char>> {
    match fmt {
        OutputFormat::Plain => texts_of(vs),
        OutputFormat::Markdown => Seq::new(vs.len(), |i: int| md_of(vs[i])),
        OutputFormat::Tree => Seq::new(vs.len(), |i: int| tree_of(vs[i])),
        _ => jsons_of(vs),
    }
}

/// The full specification of the formatter: what `format` returns for
/// each value sequence and format.
pub open spec fn spec_format(vs: Seq<ValModel>, fmt: OutputFormat) -> Seq<char> {
    match fmt {
        OutputFormat::Plain => join_with(texts_of(vs), "\n"@),
        OutputFormat::Json => seq!['['] + join_with(jsons_of(vs), ","@) + seq![']'],
        OutputFormat::JsonPretty => if vs.len() == 0 {
            "[]"@
        } else {
            "[\n  "@ + join_with(jsons_of(vs), ",\n  "@) + "\n]"@
        },
        OutputFormat::JsonLines => join_with(jsons_of(vs), "\n"@),
        OutputFormat::Markdown => join_with(lines_of(vs, fmt), "\n"@),
        OutputFormat::Tree => join_with(lines_of(vs, fmt), "\n"@),
    }
}

/// The JSON escape of a whole string body.
#[verifier::loop_isolation(false)]
fn json_escape_x(s: &String) -> (r: String)
    ensures
        r@ == json_escape(s@),
{
    let cs = str_to_chars(s.as_str());
    let mut out = String::new();
    let mut i: usize = 0;
    proof {
        assert(cs@.take(0) =~= Seq::<char>::empty());
    }
    while i < cs.len()
        invariant
            i <= cs@.len(),
            out@ == json_escape(cs@.take(i as int)),
        decreases cs@.len() - i,
    {
        let c = cs[i];
        proof {
            lemma_json_escape_push(cs@.take(i as int), c);
            assert(cs@.take(i as int).push(c) =~= cs@.take(i + 1 as int));
        }
        if c == '"' {
            out.append("\\\"");
            proof {
                assert(("\\\"")@ =~= esc_json('"')) by {
                    reveal_strlit("\\\"");
                }
            }
        } else if c == '\\' {
            out.append("\\\\");
            proof {
                assert(("\\\\")@ =~= esc_json('\\')) by {
                    reveal_strlit("\\\\");
                }
            }
        } else if c == '\n' {
            out.append("\\n");
            proof {
                assert(("\\n")@ =~= esc_json('\n')) by {
                    reveal_strlit("\\n");
                }
            }
        } else if c == '\t' {
            out.append("\\t");
            proof {
                assert(("\\t")@ =~= esc_json('\t')) by {
                    reveal_strlit("\\t");
                }
            }
        } else if c == '\r' {
            out.append("\\r");
            proof {
                assert(("\\r")@ =~= esc_json('\r')) by {
                    reveal_strlit("\\r");
                }
            }
        } else if (c as u32) < 32 {
            let d = c as u32;
            let hi: u8 = (d / 16) as u8;
            let lo: u8 = (d % 16) as u8;
            let hic: char = if hi < 10 {
                (hi + 48) as char
            } else {
                (hi + 87) as char
            };
            let loc: char = if lo < 10 {
                (lo + 48) as char
            } else {
                (lo + 87) as char
            };
            push_char(&mut out, '\\');
            push_char(&mut out, 'u');
            push_char(&mut out, '0');
            push_char(&mut out, '0');
            push_char(&mut out, hic);
            push_char(&mut out, loc);
            proof {
                assert(hic == hex_digit((c as u32 / 16) as nat));
                assert(loc == hex_digit((c as u32 % 16) as nat));
                assert(out@ =~= json_escape(cs@.take(i as int)) + esc_json(c));
            }
        } else {
            push_char(&mut out, c);
            proof {
                assert(seq![c] =~= esc_json(c));
            }
        }
        i += 1;
    }
    proof {
        assert(cs@.take(cs@.len() as int) =~= cs@);
    }
    out
}

/// A JSON string literal for the given body.
fn json_string_x(s: &String) -> (r: String)
    ensures
        r@ == json_string(s@),
{
    let mut out = String::from_str("\"");
    let body = json_escape_x(s);
    out.append(body.as_str());
    out.append("\"");
    proof {
        reveal_strlit("\"");
        assert(out@ =~= json_string(s@));
    }
    out
}

/// The canonical name of a node category.
fn kind_name_x(k: NodeKind) -> (r: String)
    ensures
        r@ == kind_name(k),
{
    match k {
        NodeKind::Root => String::from_str("root"),
        NodeKind::Heading => String::from_str("heading"),
        NodeKind::Paragraph => String::from_str("paragraph"),
        NodeKind::Link => String::from_str("link"),
        NodeKind::Table => String::from_str("table"),
        NodeKind::CodeBlock => String::from_str("code"),
        NodeKind::Text => String::from_str("text"),
    }
}

/// The compact JSON rendering of one value.
#[verifier::loop_isolation(false)]
#[verifier::rlimit(60)]
fn json_value(v: &Value) -> (r: String)
    ensures
        r@ == json_of(v@),
    decreases v,
{
    match v {
        Value::String(s) => json_string_x(s),
        Value::Number(n) => {
            let cs = i64_to_chars(*n);
            chars_to_string(&cs)
        },
        Value::Bool(b) => {
            if *b {
                String::from_str("true")
            } else {
                String::from_str("false")
            }
        },
        Value::Null => String::from_str("null"),
        Value::Node(e) => {
            let mut out = String::from_str("{\"kind\":");
            let kn = kind_name_x(e.kind);
            let ks = json_string_x(&kn);
            out.append(ks.as_str());
            out.append(",\"level\":");
            let lv = i64_to_chars(e.level as i64);
            let lvs = chars_to_string(&lv);
            out.append(lvs.as_str());
            out.append(",\"text\":");
            let ts = json_string_x(&e.text);
            out.append(ts.as_str());
            out.append(",\"target\":");
            let gs = json_string_x(&e.target);
            out.append(gs.as_str());
            out.append("}");
            proof {
                assert(out@ =~= json_elem(e@));
            }
            out
        },
        Value::List(items) => {
            let mut out = String::from_str("[");
            let ghost jsons = jsons_of(v@->List_0);
            proof {
                lemma_val_models_index(items@);
                lemma_jsons_of_index(v@->List_0);
                assert(v@->List_0.len() == items@.len());
            }
            let mut i: usize = 0;
            proof {
                reveal_strlit("[");
                assert(out@ =~= seq!['['] + join_with(jsons.take(0), ","@));
            }
            while i < items.len()
                invariant
                    i <= items@.len(),
                    jsons == jsons_of(v@->List_0),
                    jsons.len() == items@.len(),
                    forall|k: int| 0 <= k < items@.len() ==> jsons[k] == json_of(
                        #[trigger] items@[k]@,
                    ),
                    out@ == seq!['['] + join_with(jsons.take(i as int), ","@),
                decreases items@.len() - i,
            {
                if i > 0 {
                    out.append(",");
                    proof {
                        reveal_strlit(",");
                    }
                }
                proof {
                    broadcast use vstd::std_specs::vec::axiom_vec_decreases_to_view;
                    broadcast use vstd::seq::axiom_seq_index_decreases;

                    assert(decreases_to!(*v => *items));
                    assert(decreases_to!(*items => items@));
                    assert(decreases_to!(items@ => items@[i as int]));
                }
                let js = json_value(&items[i]);
                out.append(js.as_str());
                proof {
                    lemma_join_with_push(jsons.take(i as int), jsons[i as int], ","@);
                    assert(jsons.take(i as int).push(jsons[i as int]) =~= jsons.take(
                        i + 1 as int,
                    ));
                }
                i += 1;
            }
            out.append("]");
            proof {
                reveal_strlit("]");
                assert(jsons.take(items@.len() as int) =~= jsons);
                assert(out@ =~= json_of(v@));
            }
            out
        },
    }
}

/// The `#` run opening a heading of the given level.
fn hashes_x(n: u8) -> (r: String)
    ensures
        r@ == hashes(n as int),
{
    let mut out = String::new();
    let mut i: u8 = 0;
    proof {
        assert(hashes(0) =~= Seq::<char>::empty());
    }
    while i < n
        invariant
            i <= n,
            out@ == hashes(i as int),
        decreases n - i,
    {
        push_char(&mut out, '#');
        proof {
            assert(hashes(i + 1 as int) =~= hashes(i as int) + seq!['#']) by {
                lemma_hashes_snoc(i + 1 as int);
            }
        }
        i += 1;
    }
    out
}

/// A longer `#` run is the shorter one with one more `#` at its end.
proof fn lemma_hashes_snoc(n: int)
    requires
        n > 0,
    ensures
        hashes(n) == hashes(n - 1) + seq!['#'],
    decreases n,
{
    if n == 1 {
        assert(hashes(1) =~= hashes(0) + seq!['#']);
    } else {
        lemma_hashes_snoc(n - 1);
        assert(hashes(n) == seq!['#'] + hashes(n - 1));
        assert(seq!['#'] + (hashes(n - 2) + seq!['#']) =~= (seq!['#'] + hashes(n - 2))
            + seq!['#']);
    }
}

/// The markdown-like rendering of one value.
fn md_value(v: &Value) -> (r: String)
    ensures
        r@ == md_of(v@),
{
    match v {
        Value::Node(e) => match e.kind {
            NodeKind::Heading => {
                let mut out = hashes_x(e.level);
                out.append(" ");
                out.append(e.text.as_str());
                proof {
                    reveal_strlit(" ");
                    assert(out@ =~= md_of(v@));
                }
                out
            },
            NodeKind::Link => {
                let mut out = String::from_str("[");
                out.append(e.text.as_str());
                out.append("](");
                out.append(e.target.as_str());
                out.append(")");
                proof {
                    reveal_strlit("[");
                    reveal_strlit(")");
                    assert(out@ =~= md_of(v@));
                }
                out
            },
            NodeKind::CodeBlock => {
                let mut out = String::from_str("```\n");
                out.append(e.text.as_str());
                out.append("\n```");
                proof {
                    assert(out@ =~= md_of(v@));
                }
                out
            },
            _ => e.text.clone(),
        },
        _ => v.to_text(),
    }
}

/// The tree-listing rendering of one value.
fn tree_value(v: &Value) -> (r: String)
    ensures
        r@ == tree_of(v@),
{
    match v {
        Value::Node(e) => {
            let mut out = String::from_str("├─ ");
            let kn = kind_name_x(e.kind);
            out.append(kn.as_str());
            out.append(": ");
            out.append(e.text.as_str());
            proof {
                assert(out@ =~= tree_of(v@));
            }
            out
        },
        _ => v.to_text(),
    }
}

/// Render each value under a per-value format and join the renderings
/// with `sep`, starting from `head`.
#[verifier::loop_isolation(false)]
fn join_rendered(values: &[Value], fmt: OutputFormat, head: &str, sep: &str) -> (r: String)
    ensures
        r@ == head@ + join_with(lines_of(val_models(values@), fmt), sep@),
{
    let ghost vms = val_models(values@);
    let ghost lines = lines_of(vms, fmt);
    proof {
        lemma_val_models_index(values@);
        crate::query::value::lemma_texts_of_index(vms);
        lemma_jsons_of_index(vms);
    }
    let mut out = String::from_str(head);
    let mut i: usize = 0;
    proof {
        assert(out@ =~= head@ + join_with(lines.take(0), sep@));
    }
    while i < values.len()
        invariant
            i <= values@.len(),
            lines == lines_of(vms, fmt),
            lines.len() == values@.len(),
            forall|k: int| 0 <= k < values@.len() ==> lines[k] == line_of(
                #[trigger] values@[k]@,
                fmt,
            ),
            out@ == head@ + join_with(lines.take(i as int), sep@),
        decreases values@.len() - i,
    {
        if i > 0 {
            out.append(sep);
        }
        let line: String = match fmt {
            OutputFormat::Plain => values[i].to_text(),
            OutputFormat::Markdown => md_value(&values[i]),
            OutputFormat::Tree => tree_value(&values[i]),
            _ => json_value(&values[i]),
        };
        out.append(line.as_str());
        proof {
            lemma_join_with_push(lines.take(i as int), lines[i as int], sep@);
            assert(lines.take(i as int).push(lines[i as int]) =~= lines.take(i + 1 as int));
        }
        i += 1;
    }
    proof {
        assert(lines.take(values@.len() as int) =~= lines);
    }
    out
}

/// The rendering of one value under a per-value format.
pub open spec fn line_of(v: ValModel, fmt: OutputFormat) -> Seq<char> {
    match fmt {
        OutputFormat::Plain => text_of(v),
        OutputFormat::Markdown => md_of(v),
        OutputFormat::Tree => tree_of(v),
        _ => json_of(v),
    }
}

/// `lines_of` maps `line_of` over the values, index by index.
pub proof fn lemma_lines_of_index(vs: Seq<ValModel>, fmt: OutputFormat)
    ensures
        lines_of(vs, fmt).len() == vs.len(),
        forall|i: int| 0 <= i < vs.len() ==> lines_of(vs, fmt)[i] == line_of(vs[i], fmt),
{
    crate::query::value::lemma_texts_of_index(vs);
    lemma_jsons_of_index(vs);
}

/// Render a sequence of query results in the chosen format. The
/// output is exactly what `spec_format` describes, a pure function of
/// the values and the format.
pub fn format(values: &[Value], fmt: OutputFormat) -> (r: String)
    ensures
        r@ == spec_format(val_models(values@), fmt),
{
    let ghost vms = val_models(values@);
    match fmt {
        OutputFormat::Plain => {
            let r = join_rendered(values, fmt, "", "\n");
            proof {
                reveal_strlit("");
                assert(Seq::<char>::empty() + join_with(texts_of(vms), "\n"@) =~= join_with(
                    texts_of(vms),
                    "\n"@,
                ));
            }
            r
        },
        OutputFormat::Json => {
            let mut r = join_rendered(values, fmt, "[", ",");
            r.append("]");
            proof {
                reveal_strlit("[");
                reveal_strlit("]");
                assert(r@ =~= spec_format(vms, fmt));
            }
            r
        },
        OutputFormat::JsonPretty => {
            proof {
                lemma_val_models_index(values@);
            }
            if values.len() == 0 {
                let r = String::from_str("[]");
                proof {
                    assert(vms.len() == 0);
                }
                r
            } else {
                let mut r = join_rendered(values, fmt, "[\n  ", ",\n  ");
                r.append("\n]");
                proof {
                    assert(vms.len() > 0);
                    assert(r@ =~= spec_format(vms, fmt));
                }
                r
            }
        },
        OutputFormat::JsonLines => {
            let r = join_rendered(values, fmt, "", "\n");
            proof {
                reveal_strlit("");
                assert(Seq::<char>::empty() + join_with(jsons_of(vms), "\n"@) =~= join_with(
                    jsons_of(vms),
                    "\n"@,
                ));
            }
            r
        },
        OutputFormat::Markdown => {
            let r = join_rendered(values, fmt, "", "\n");
            proof {
                reveal_strlit("");
                assert(Seq::<char>::empty() + join_with(lines_of(vms, fmt), "\n"@) =~= join_with(
                    lines_of(vms, fmt),
                    "\n"@,
                ));
            }
            r
        },
        OutputFormat::Tree => {
            let r = join_rendered(values, fmt, "", "\n");
            proof {
                reveal_strlit("");
                assert(Seq::<char>::empty() + join_with(lines_of(vms, fmt), "\n"@) =~= join_with(
                    lines_of(vms, fmt),
                    "\n"@,
                ));
            }
            r
        },
    }
}

/// Parse a format name: `plain`/`text`, `json`, `json-pretty`,
/// `jsonl`/`jsonlines`/`ndjson`, `md`/`markdown`, or `tree`, in any
/// letter case (std's Unicode fold, named `lower_of`). Anything else
/// is rejected with a message naming the input.
pub fn parse_format(s: &str) -> (r: Result<OutputFormat, String>)
    ensures
        match r {
            Ok(f) => spec_parse_format(crate::strutil::lower_of(s@)) == Some(f),
            Err(m) => spec_parse_format(crate::strutil::lower_of(s@)) == None::<OutputFormat>
                && m@ == "Unknown output format: "@ + s@,
        },
{
    let lower = crate::strutil::lowercase(s);
    let r: Option<OutputFormat> = if lower == String::from_str("plain") || lower
        == String::from_str("text") {
        Some(OutputFormat::Plain)
    } else if lower == String::from_str("json") {
        Some(OutputFormat::Json)
    } else if lower == String::from_str("json-pretty") || lower == String::from_str(
        "jsonpretty",
    ) {
        Some(OutputFormat::JsonPretty)
    } else if lower == String::from_str("jsonl") || lower == String::from_str("jsonlines")
        || lower == String::from_str("ndjson") {
        Some(OutputFormat::JsonLines)
    } else if lower == String::from_str("md") || lower == String::from_str("markdown") {
        Some(OutputFormat::Markdown)
    } else if lower == String::from_str("tree") {
        Some(OutputFormat::Tree)
    } else {
        None
    };
    match r {
        Some(f) => Ok(f),
        None => {
            let mut msg = String::from_str("Unknown output format: ");
            msg.append(s);
            Err(msg)
        },
    }
}

/// Which format a (lower-cased) name selects.
pub open spec fn spec_parse_format(low: Seq<char>) -> Option<OutputFormat> {
    if low == "plain"@ || low == "text"@ {
        Some(OutputFormat::Plain)
    } else if low == "json"@ {
        Some(OutputFormat::Json)
    } else if low == "json-pretty"@ || low == "jsonpretty"@ {
        Some(OutputFormat::JsonPretty)
    } else if low == "jsonl"@ || low == "jsonlines"@ || low == "ndjson"@ {
        Some(OutputFormat::JsonLines)
    } else if low == "md"@ || low == "markdown"@ {
        Some(OutputFormat::Markdown)
    } else if low == "tree"@ {
        Some(OutputFormat::Tree)
    } else {
        None
    }
}

impl core::str::FromStr for OutputFormat {
    type Err = String;

    /// Parse a format name; see `parse_format`.
    fn from_str(s: &str) -> Result<OutputFormat, String> {
        parse_format(s)
    }
}

} // verus!
