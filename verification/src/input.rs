//! Input normalisation: size limits for reading, and the check that
//! decides whether content is already markdown or needs wrapping.
//!
//! The reading itself (stdin, files) lives outside the library; these
//! are the rules it applies: how large input may grow, how long one
//! line may be, and what `process_input` hands on to the markdown
//! parser.

use vstd::prelude::*;

use crate::strutil::{chars_to_string, str_to_chars, u64_to_chars};

verus! {

/// Maximum input size (100 MB), preventing memory exhaustion.
pub const MAX_INPUT_SIZE: usize = 100 * 1024 * 1024;

/// Maximum line size (10 MB), preventing single-line exhaustion.
pub const MAX_LINE_SIZE: usize = 10 * 1024 * 1024;

/// Where input came from, with its content.
#[derive(Debug)]
pub enum InputSource {
    File(String),
    Stdin(String),
}

/// Why input could not be read. The reading layer turns its own I/O
/// failures into `Io` with the failure's message.
#[derive(Debug, PartialEq, Eq)]
pub enum InputError {
    Io(String),
    Utf8Error,
    EmptyInput,
    NoTty,
    InputTooLarge(usize),
    LineTooLong(usize),
}

/// What accepting one more line does to the running total: the line
/// must stay under the line limit, and the saturated total under the
/// input limit.
pub open spec fn spec_accumulate(total: int, line_len: int) -> Result<int, InputError> {
    if line_len > MAX_LINE_SIZE {
        Err(InputError::LineTooLong(line_len as usize))
    } else {
        let new_total = if total + line_len > usize::MAX {
            usize::MAX as int
        } else {
            total + line_len
        };
        if new_total > MAX_INPUT_SIZE {
            Err(InputError::InputTooLarge(new_total as usize))
        } else {
            Ok(new_total)
        }
    }
}

/// Add one line's length to the running input total, enforcing the
/// line and whole-input limits exactly as `spec_accumulate` says.
pub fn accumulate_line(total: usize, line_len: usize) -> (r: Result<usize, InputError>)
    ensures
        match r {
            Ok(t) => spec_accumulate(total as int, line_len as int) == Ok::<int, InputError>(
                t as int,
            ),
            Err(e) => spec_accumulate(total as int, line_len as int) == Err::<int, InputError>(e),
        },
{
    if line_len > MAX_LINE_SIZE {
        return Err(InputError::LineTooLong(line_len));
    }
    let new_total = if total > usize::MAX - line_len {
        usize::MAX
    } else {
        total + line_len
    };
    if new_total > MAX_INPUT_SIZE {
        return Err(InputError::InputTooLarge(new_total));
    }
    Ok(new_total)
}

/// Does content already look like markdown: its first non-whitespace
/// character is `#`, or a line further down starts with `#`?
pub open spec fn looks_like_markdown(c: Seq<char>) -> bool {
    let a = crate::strutil::skip_ws(c, 0);
    (a < c.len() && c[a] == '#') || exists|i: int|
        0 <= i < c.len() - 1 && (#[trigger] c[i]) == '\n' && c[i + 1] == '#'
}

/// What `process_input` hands to the markdown parser: markdown content
/// passes through unchanged; plain text is wrapped under a document
/// heading.
pub open spec fn spec_process(c: Seq<char>) -> Seq<char> {
    if looks_like_markdown(c) {
        c
    } else {
        "# Input\n\n"@ + c
    }
}

/// Process input into content ready for markdown parsing: raw markdown
/// passes through; plain text is wrapped under a heading. Never fails;
/// the result is exactly what `spec_process` describes.
#[verifier::loop_isolation(false)]
pub fn process_input(source: InputSource) -> (r: Result<String, InputError>)
    ensures
        match r {
            Ok(s) => match source {
                InputSource::File(c) => s@ == spec_process(c@),
                InputSource::Stdin(c) => s@ == spec_process(c@),
            },
            Err(_) => false,
        },
{
    let content: String = match source {
        InputSource::File(c) => c,
        InputSource::Stdin(c) => c,
    };
    let cs = str_to_chars(content.as_str());
    let n = cs.len();
    // First non-whitespace character.
    let mut a: usize = 0;
    while a < n && crate::strutil::is_white_space_x(cs[a])
        invariant
            a <= n,
            crate::strutil::skip_ws(cs@, 0) == crate::strutil::skip_ws(cs@, a as int),
        decreases n - a,
    {
        a += 1;
    }
    let mut is_md: bool = a < n && cs[a] == '#';
    // A `#` opening a later line.
    let mut i: usize = 0;
    if n > 0 {
        while i < n - 1
            invariant
                n == cs@.len(),
                n > 0,
                i <= n - 1,
                is_md == ((crate::strutil::skip_ws(cs@, 0) < cs@.len() && cs@[crate::strutil::skip_ws(
                    cs@,
                    0,
                )] == '#') || exists|k: int|
                    0 <= k < i && (#[trigger] cs@[k]) == '\n' && cs@[k + 1] == '#'),
            decreases n - i,
        {
            if cs[i] == '\n' && cs[i + 1] == '#' {
                is_md = true;
            }
            i += 1;
        }
    }
    proof {
        assert(is_md == looks_like_markdown(cs@));
    }
    if is_md {
        Ok(content)
    } else {
        let mut out = String::from_str("# Input\n\n");
        out.append(content.as_str());
        Ok(out)
    }
}

/// The human-readable description of an input error, as the reading
/// layer shows it.
pub fn input_error_message(e: &InputError) -> (r: String)
    ensures
        r@ == spec_error_message(*e),
{
    match e {
        InputError::Io(m) => {
            let mut out = String::from_str("I/O error: ");
            out.append(m.as_str());
            out
        },
        InputError::Utf8Error => String::from_str("Invalid UTF-8 in input"),
        InputError::EmptyInput => String::from_str("Empty input provided"),
        InputError::NoTty => String::from_str("No file specified and stdin is not being piped"),
        InputError::InputTooLarge(size) => {
            let mut out = String::from_str("Input too large: ");
            let digits = u64_to_chars(*size as u64);
            let ds = chars_to_string(&digits);
            out.append(ds.as_str());
            out.append(" bytes (max 100 MB)");
            out
        },
        InputError::LineTooLong(size) => {
            let mut out = String::from_str("Line too long: ");
            let digits = u64_to_chars(*size as u64);
            let ds = chars_to_string(&digits);
            out.append(ds.as_str());
            out.append(" bytes (max 10 MB)");
            out
        },
    }
}

/// The exact text of each input error message.
pub open spec fn spec_error_message(e: InputError) -> Seq<char> {
    match e {
        InputError::Io(m) => "I/O error: "@ + m@,
        InputError::Utf8Error => "Invalid UTF-8 in input"@,
        InputError::EmptyInput => "Empty input provided"@,
        InputError::NoTty => "No file specified and stdin is not being piped"@,
        InputError::InputTooLarge(size) => "Input too large: "@ + crate::strutil::dec_digits(
            size as nat,
        ) + " bytes (max 100 MB)"@,
        InputError::LineTooLong(size) => "Line too long: "@ + crate::strutil::dec_digits(
            size as nat,
        ) + " bytes (max 10 MB)"@,
    }
}

} // verus!
