//! Input normalisation and limit checks.

use treemd::input::{
    accumulate_line, input_error_message, process_input, InputError, InputSource, MAX_INPUT_SIZE,
    MAX_LINE_SIZE,
};

#[test]
fn test_process_markdown_input() {
    let markdown = "# Title\n\nContent here\n\n## Section\n";
    let source = InputSource::Stdin(markdown.to_string());

    let result = process_input(source).unwrap();
    assert_eq!(result, markdown);
}

#[test]
fn test_process_plain_text() {
    let text = "Just some plain text\nwith multiple lines";
    let source = InputSource::Stdin(text.to_string());

    let result = process_input(source).unwrap();
    assert!(result.starts_with("# Input\n\n"));
    assert!(result.contains("Just some plain text"));
}

#[test]
fn test_process_file_markdown_with_later_heading() {
    let text = "intro line\n# Heading later\nmore";
    let result = process_input(InputSource::File(text.to_string())).unwrap();
    assert_eq!(result, text);
}

#[test]
fn test_process_leading_whitespace_heading() {
    let text = "   \n\t# Indented heading";
    let result = process_input(InputSource::Stdin(text.to_string())).unwrap();
    assert_eq!(result, text);
}

#[test]
fn test_process_unicode_whitespace_heading() {
    // A no-break space before the heading marker is still whitespace.
    let text = "\u{a0}# Heading";
    let result = process_input(InputSource::Stdin(text.to_string())).unwrap();
    assert_eq!(result, text);
}

#[test]
fn test_accumulate_line_ok() {
    assert_eq!(accumulate_line(10, 20), Ok(30));
    assert_eq!(accumulate_line(0, 0), Ok(0));
}

#[test]
fn test_accumulate_line_too_long() {
    let r = accumulate_line(0, MAX_LINE_SIZE + 1);
    assert_eq!(r, Err(InputError::LineTooLong(MAX_LINE_SIZE + 1)));
}

#[test]
fn test_accumulate_input_too_large() {
    let r = accumulate_line(MAX_INPUT_SIZE, 1);
    assert_eq!(r, Err(InputError::InputTooLarge(MAX_INPUT_SIZE + 1)));
}

#[test]
fn test_input_error_messages() {
    assert_eq!(
        input_error_message(&InputError::Io("boom".to_string())),
        "I/O error: boom"
    );
    assert_eq!(
        input_error_message(&InputError::Utf8Error),
        "Invalid UTF-8 in input"
    );
    assert_eq!(
        input_error_message(&InputError::EmptyInput),
        "Empty input provided"
    );
    assert_eq!(
        input_error_message(&InputError::NoTty),
        "No file specified and stdin is not being piped"
    );
    assert_eq!(
        input_error_message(&InputError::InputTooLarge(123)),
        "Input too large: 123 bytes (max 100 MB)"
    );
    assert_eq!(
        input_error_message(&InputError::LineTooLong(7)),
        "Line too long: 7 bytes (max 10 MB)"
    );
}
