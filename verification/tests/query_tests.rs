//! The query engine end to end: selectors, pipes, functions, errors,
//! extensions and output formats.

use std::str::FromStr;

use treemd::document::{Document, NodeKind};
use treemd::query::{
    engine_with_registry, execute, format_output, parse, ArityRange, EvalContext, Extension,
    Function, OutputFormat, QueryError, QueryErrorKind, Registry, Value,
};

fn leaf(doc: Document, kind: NodeKind, level: u8, text: &str, target: &str) -> Document {
    doc.append_leaf(kind, level, text.to_string(), target.to_string())
}

/// `# Title\n\nContent here\n\n## Section\n` as its parsed tree.
fn title_doc() -> Document {
    let doc = Document::new();
    let doc = leaf(doc, NodeKind::Heading, 1, "Title", "");
    let doc = leaf(doc, NodeKind::Paragraph, 0, "Content here", "");
    leaf(doc, NodeKind::Heading, 2, "Section", "")
}

/// A document with several level-2 headings among other elements.
fn sections_doc() -> Document {
    let doc = Document::new();
    let doc = leaf(doc, NodeKind::Heading, 1, "Top", "");
    let doc = leaf(doc, NodeKind::Heading, 2, "Alpha", "");
    let doc = leaf(doc, NodeKind::Paragraph, 0, "text one", "");
    let doc = leaf(doc, NodeKind::Heading, 2, "Beta", "");
    let doc = leaf(doc, NodeKind::Link, 0, "example", "https://example.test");
    let doc = leaf(doc, NodeKind::Heading, 3, "Deep", "");
    leaf(doc, NodeKind::Heading, 2, "Gamma", "")
}

fn texts(values: &[Value]) -> Vec<String> {
    values.iter().map(|v| v.to_text()).collect()
}

#[test]
fn test_selector_ordering() {
    let doc = sections_doc();
    let results = execute(&doc, ".h2").unwrap();
    assert_eq!(texts(&results), vec!["Alpha", "Beta", "Gamma"]);
    for v in &results {
        match v {
            Value::Node(e) => {
                assert!(matches!(e.kind, NodeKind::Heading));
                assert_eq!(e.level, 2);
            }
            other => panic!("expected a structural reference, got {:?}", other),
        }
    }
}

#[test]
fn test_pipe_composition() {
    let doc = sections_doc();
    let selected = execute(&doc, ".h2").unwrap();
    let projected = execute(&doc, ".h2 | .text").unwrap();
    assert_eq!(selected.len(), projected.len());
    for (s, p) in selected.iter().zip(projected.iter()) {
        assert_eq!(Value::String(s.to_text()), *p);
    }
}

#[test]
fn test_round_trip() {
    let doc = title_doc();
    let titles = execute(&doc, ".h1 | .text").unwrap();
    assert_eq!(titles, vec![Value::String("Title".to_string())]);

    let sections = execute(&doc, ".h2").unwrap();
    assert_eq!(sections.len(), 1);
    match &sections[0] {
        Value::Node(e) => {
            assert!(matches!(e.kind, NodeKind::Heading));
            assert_eq!(e.level, 2);
            assert_eq!(e.text, "Section");
        }
        other => panic!("expected a structural reference, got {:?}", other),
    }
}

#[test]
fn test_unknown_selector() {
    let doc = title_doc();
    let err = execute(&doc, ".nonexistent").unwrap_err();
    match err.kind {
        QueryErrorKind::UnknownSelector(name) => assert_eq!(name, "nonexistent"),
        other => panic!("expected UnknownSelector, got {:?}", other),
    }
}

#[test]
fn test_unknown_function() {
    let doc = title_doc();
    let err = execute(&doc, "nope()").unwrap_err();
    assert!(matches!(err.kind, QueryErrorKind::UnknownFunction(_)));
}

#[test]
fn test_builtin_arity_error() {
    let doc = title_doc();
    let err = execute(&doc, "upper(1)").unwrap_err();
    match err.kind {
        QueryErrorKind::ArityError { min, max, got } => {
            assert_eq!(min, 0);
            assert_eq!(max, Some(0));
            assert_eq!(got, 1);
        }
        other => panic!("expected ArityError, got {:?}", other),
    }
}

#[test]
fn test_all_or_nothing_on_error() {
    let doc = sections_doc();
    // The first stage succeeds on its own; the second fails on scalars.
    assert!(execute(&doc, ".h2 | .text").is_ok());
    let err = execute(&doc, ".h2 | .text | .h2").unwrap_err();
    assert!(matches!(err.kind, QueryErrorKind::TypeError));
}

#[test]
fn test_type_error_on_scalar_target() {
    let doc = sections_doc();
    let err = execute(&doc, ".h2 | .text | .target").unwrap_err();
    assert!(matches!(err.kind, QueryErrorKind::TypeError));
}

#[test]
fn test_link_target_projection() {
    let doc = sections_doc();
    let targets = execute(&doc, ".link | .target").unwrap();
    assert_eq!(targets, vec![Value::String("https://example.test".to_string())]);
}

#[test]
fn test_heading_level_projection() {
    let doc = sections_doc();
    let levels = execute(&doc, ".heading | .level").unwrap();
    assert_eq!(
        levels,
        vec![
            Value::Number(1),
            Value::Number(2),
            Value::Number(2),
            Value::Number(3),
            Value::Number(2)
        ]
    );
}

#[test]
fn test_builtin_functions() {
    let doc = sections_doc();
    assert_eq!(
        execute(&doc, ".h2 | .text | upper()").unwrap(),
        vec![
            Value::String("ALPHA".to_string()),
            Value::String("BETA".to_string()),
            Value::String("GAMMA".to_string())
        ]
    );
    assert_eq!(
        execute(&doc, ".h2 | .text | lower()").unwrap(),
        vec![
            Value::String("alpha".to_string()),
            Value::String("beta".to_string()),
            Value::String("gamma".to_string())
        ]
    );
    assert_eq!(execute(&doc, ".h2 | count()").unwrap(), vec![Value::Number(3)]);
    assert_eq!(
        execute(&doc, ".h2 | .text | first()").unwrap(),
        vec![Value::String("Alpha".to_string())]
    );
    assert_eq!(
        execute(&doc, ".h2 | .text | last()").unwrap(),
        vec![Value::String("Gamma".to_string())]
    );
    assert_eq!(
        execute(&doc, ".h2 | .text | join(\", \")").unwrap(),
        vec![Value::String("Alpha, Beta, Gamma".to_string())]
    );
    assert_eq!(
        execute(&doc, ".h2 | .text | join()").unwrap(),
        vec![Value::String("Alpha,Beta,Gamma".to_string())]
    );
}

#[test]
fn test_trim_builtin() {
    let doc = Document::new();
    let doc = doc.append_leaf(NodeKind::Paragraph, 0, "  padded  ".to_string(), String::new());
    assert_eq!(
        execute(&doc, ".p | .text | trim()").unwrap(),
        vec![Value::String("padded".to_string())]
    );
    let doc = Document::new();
    let doc = doc.append_leaf(
        NodeKind::Paragraph,
        0,
        "\u{a0}\u{2003}padded\u{a0}".to_string(),
        String::new(),
    );
    assert_eq!(
        execute(&doc, ".p | .text | trim()").unwrap(),
        vec![Value::String("padded".to_string())]
    );
}

#[test]
fn test_lex_error_invalid_char() {
    let doc = title_doc();
    let err = execute(&doc, ".h1 ~").unwrap_err();
    assert!(matches!(err.kind, QueryErrorKind::LexError(_)));
    let span = err.span.unwrap();
    assert_eq!(span.start, 4);
    assert_eq!(span.end, 5);
}

#[test]
fn test_lex_error_unterminated_string() {
    let err = parse("join(\"abc").unwrap_err();
    assert!(matches!(err.kind, QueryErrorKind::LexError(_)));
}

#[test]
fn test_lex_error_huge_number() {
    let err = parse("join(99999999999999999999)").unwrap_err();
    assert!(matches!(err.kind, QueryErrorKind::LexError(_)));
}

#[test]
fn test_parse_error_empty_query() {
    assert!(matches!(
        parse("").unwrap_err().kind,
        QueryErrorKind::ParseError(_)
    ));
    assert!(matches!(
        parse("   ").unwrap_err().kind,
        QueryErrorKind::ParseError(_)
    ));
}

#[test]
fn test_parse_error_unmatched_paren() {
    assert!(matches!(
        parse("count(").unwrap_err().kind,
        QueryErrorKind::ParseError(_)
    ));
}

#[test]
fn test_parse_error_trailing_tokens() {
    assert!(matches!(
        parse(".h1 )").unwrap_err().kind,
        QueryErrorKind::ParseError(_)
    ));
}

#[test]
fn test_parse_error_nested_pipe() {
    assert!(matches!(
        parse("join(.h1 | .text)").unwrap_err().kind,
        QueryErrorKind::ParseError(_)
    ));
}

#[test]
fn test_parse_selector_path_and_literals() {
    // A multi-step selector and literal arguments all parse.
    assert!(parse(".link.text").is_ok());
    assert!(parse("join(\"-\")").is_ok());
    assert!(parse("join(7)").is_ok());
    assert!(parse("join(true)").is_ok());
}

struct MyExtension;

impl Extension for MyExtension {
    fn call(
        &self,
        name: &str,
        args: &Vec<Value>,
        _ctx: &EvalContext<'_>,
    ) -> Result<Vec<Value>, QueryError> {
        if name == "my_upper" {
            let text = args.first().map(|v| v.to_text()).unwrap_or_default();
            Ok(vec![Value::String(text.to_uppercase())])
        } else if name == "always_fails" {
            Err(QueryError {
                kind: QueryErrorKind::EvalError("this function always fails".to_string()),
                span: None,
            })
        } else {
            Err(QueryError {
                kind: QueryErrorKind::EvalError("not implemented".to_string()),
                span: None,
            })
        }
    }

    fn extract(
        &self,
        _name: &str,
        _ctx: &EvalContext<'_>,
    ) -> Result<Vec<Value>, QueryError> {
        Ok(vec![Value::String("custom element".to_string())])
    }
}

#[test]
fn test_custom_extension() {
    let doc = Document::new();
    let doc = doc.append_leaf(NodeKind::Heading, 1, "Hello World".to_string(), String::new());
    let mut registry = Registry::with_builtins_and(MyExtension);
    registry.register_function("my_upper", Function::external(ArityRange::between(0, 1)));

    let engine = engine_with_registry(&doc, registry);
    let query = parse(".h1 | .text | my_upper()").unwrap();
    let results = engine.execute(&query).unwrap();
    assert_eq!(results, vec![Value::String("HELLO WORLD".to_string())]);
}

#[test]
fn test_arity_enforcement() {
    let doc = title_doc();
    let mut registry = Registry::with_builtins_and(MyExtension);
    registry.register_function("my_upper", Function::external(ArityRange::between(0, 1)));
    let engine = engine_with_registry(&doc, registry);

    // Two arguments lie outside 0..=1.
    let query = parse(".h1 | .text | my_upper(1, 2)").unwrap();
    let err = engine.execute(&query).unwrap_err();
    match err.kind {
        QueryErrorKind::ArityError { min, max, got } => {
            assert_eq!(min, 0);
            assert_eq!(max, Some(1));
            assert_eq!(got, 2);
        }
        other => panic!("expected ArityError, got {:?}", other),
    }

    // Zero and one argument succeed.
    let query0 = parse(".h1 | .text | my_upper()").unwrap();
    assert!(engine.execute(&query0).is_ok());
    let query1 = parse(".h1 | .text | my_upper(\"x\")").unwrap();
    assert!(engine.execute(&query1).is_ok());
}

#[test]
fn test_extension_failure_aborts() {
    let doc = title_doc();
    let mut registry = Registry::with_builtins_and(MyExtension);
    registry.register_function("always_fails", Function::external(ArityRange::exactly(0)));
    let engine = engine_with_registry(&doc, registry);
    let query = parse(".h1 | always_fails()").unwrap();
    let err = engine.execute(&query).unwrap_err();
    assert!(matches!(err.kind, QueryErrorKind::EvalError(_)));
}

#[test]
fn test_custom_extractor() {
    let doc = title_doc();
    let mut registry = Registry::with_builtins_and(MyExtension);
    registry.register_extractor("admonition", treemd::query::ExtractorImpl::External);
    let engine = engine_with_registry(&doc, registry);
    let query = parse(".admonition").unwrap();
    let results = engine.execute(&query).unwrap();
    assert_eq!(results, vec![Value::String("custom element".to_string())]);
}

#[test]
fn test_determinism() {
    let doc = sections_doc();
    let formats = [
        OutputFormat::Plain,
        OutputFormat::Json,
        OutputFormat::JsonPretty,
        OutputFormat::JsonLines,
        OutputFormat::Markdown,
        OutputFormat::Tree,
    ];
    let a = execute(&doc, ".h2 | .text").unwrap();
    let b = execute(&doc, ".h2 | .text").unwrap();
    assert_eq!(a, b);
    for fmt in formats {
        assert_eq!(format_output(&a, fmt), format_output(&b, fmt));
    }
}

#[test]
fn test_format_plain_and_lines() {
    let doc = sections_doc();
    let values = execute(&doc, ".h2 | .text").unwrap();
    assert_eq!(format_output(&values, OutputFormat::Plain), "Alpha\nBeta\nGamma");
    assert_eq!(
        format_output(&values, OutputFormat::JsonLines),
        "\"Alpha\"\n\"Beta\"\n\"Gamma\""
    );
}

#[test]
fn test_format_json_compact() {
    let doc = sections_doc();
    let values = execute(&doc, ".h2 | .text").unwrap();
    assert_eq!(
        format_output(&values, OutputFormat::Json),
        "[\"Alpha\",\"Beta\",\"Gamma\"]"
    );
    let nodes = execute(&doc, ".link").unwrap();
    assert_eq!(
        format_output(&nodes, OutputFormat::Json),
        "[{\"kind\":\"link\",\"level\":0,\"text\":\"example\",\"target\":\"https://example.test\"}]"
    );
}

#[test]
fn test_format_json_escaping() {
    let values = vec![Value::String("a\"b\\c\nd".to_string())];
    assert_eq!(
        format_output(&values, OutputFormat::Json),
        "[\"a\\\"b\\\\c\\nd\"]"
    );
    // Control characters get a \u00XX escape.
    let control = vec![Value::String("a\u{1}b\u{1f}".to_string())];
    assert_eq!(
        format_output(&control, OutputFormat::Json),
        "[\"a\\u0001b\\u001f\"]"
    );
    let parsed: serde_json::Value =
        serde_json::from_str(&format_output(&control, OutputFormat::Json)).unwrap();
    let expected = serde_json::Value::Array(vec![serde_json::Value::String(
        "a\u{1}b\u{1f}".to_string(),
    )]);
    assert_eq!(parsed, expected);
}

#[test]
fn test_format_markdown_and_tree() {
    let doc = sections_doc();
    let headings = execute(&doc, ".h2").unwrap();
    assert_eq!(
        format_output(&headings, OutputFormat::Markdown),
        "## Alpha\n## Beta\n## Gamma"
    );
    let links = execute(&doc, ".link").unwrap();
    assert_eq!(
        format_output(&links, OutputFormat::Markdown),
        "[example](https://example.test)"
    );
    assert_eq!(
        format_output(&links, OutputFormat::Tree),
        "├─ link: example"
    );
}

#[test]
fn test_format_idempotence() {
    let doc = sections_doc();
    for query in [".h2", ".h2 | .text", ".heading | .level", ".link"] {
        let values = execute(&doc, query).unwrap();
        let compact = format_output(&values, OutputFormat::Json);
        let pretty = format_output(&values, OutputFormat::JsonPretty);
        let from_compact: serde_json::Value = serde_json::from_str(&compact).unwrap();
        let from_pretty: serde_json::Value = serde_json::from_str(&pretty).unwrap();
        assert_eq!(from_compact, from_pretty);
    }
}

#[test]
fn test_output_format_from_str() {
    assert_eq!(OutputFormat::from_str("plain").unwrap(), OutputFormat::Plain);
    assert_eq!(OutputFormat::from_str("TEXT").unwrap(), OutputFormat::Plain);
    assert_eq!(OutputFormat::from_str("json").unwrap(), OutputFormat::Json);
    assert_eq!(
        OutputFormat::from_str("json-pretty").unwrap(),
        OutputFormat::JsonPretty
    );
    assert_eq!(OutputFormat::from_str("ndjson").unwrap(), OutputFormat::JsonLines);
    assert_eq!(OutputFormat::from_str("md").unwrap(), OutputFormat::Markdown);
    assert_eq!(OutputFormat::from_str("tree").unwrap(), OutputFormat::Tree);
    let err = OutputFormat::from_str("bogus").unwrap_err();
    assert_eq!(err, "Unknown output format: bogus");
}

#[test]
fn test_value_projections() {
    assert_eq!(Value::Number(-42).to_text(), "-42");
    assert_eq!(Value::Bool(true).to_text(), "true");
    assert_eq!(Value::Null.to_text(), "null");
    let list = Value::List(vec![
        Value::Number(1),
        Value::String("two".to_string()),
        Value::Bool(false),
    ]);
    assert_eq!(list.to_text(), "1, two, false");
    assert_eq!(list.duplicate(), list);
}
