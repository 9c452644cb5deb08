//! Key string parsing and formatting: conversion between
//! human-readable key strings (`"ctrl-c"`, `"alt-enter"`, `"shift-tab"`)
//! and key bindings.

use vstd::prelude::*;

use crate::strutil::{
    chars_eq, chars_to_string, dec_digits, lower_of, lowercase, push_char, str_to_chars, trim_of,
    trim_text, u64_to_chars, upper_char,
};
use crate::query::lexer::{digits_val, is_digit, lemma_digits_val_extend, lemma_digits_val_monotone};

verus! {

/// A key, modelled after the keys a terminal reports.
#[derive(Clone, Copy, Debug, PartialEq, Eq, Structural)]
pub enum KeyCode {
    Char(char),
    Enter,
    Esc,
    Tab,
    BackTab,
    Backspace,
    Delete,
    Insert,
    Home,
    End,
    PageUp,
    PageDown,
    Up,
    Down,
    Left,
    Right,
    F(u8),
    Null,
}

/// The modifier keys held together with a key.
#[derive(Clone, Copy, Debug, PartialEq, Eq, Structural)]
pub struct KeyMods {
    pub ctrl: bool,
    pub alt: bool,
    pub shift: bool,
}

impl KeyMods {
    /// No modifiers held.
    pub fn none() -> (r: KeyMods)
        ensures
            r == no_mods(),
    {
        KeyMods { ctrl: false, alt: false, shift: false }
    }
}

/// No modifiers held.
pub open spec fn no_mods() -> KeyMods {
    KeyMods { ctrl: false, alt: false, shift: false }
}

/// A key binding: a key code with modifiers.
#[derive(Clone, Copy, Debug, PartialEq, Eq, Structural)]
pub struct KeyBinding {
    pub code: KeyCode,
    pub modifiers: KeyMods,
}

impl KeyBinding {
    /// A binding for a key with the given modifiers.
    pub fn new(code: KeyCode, modifiers: KeyMods) -> (r: KeyBinding)
        ensures
            r.code == code,
            r.modifiers == modifiers,
    {
        KeyBinding { code, modifiers }
    }

    /// A binding with no modifiers.
    pub fn key(code: KeyCode) -> (r: KeyBinding)
        ensures
            r.code == code,
            r.modifiers == no_mods(),
    {
        KeyBinding { code, modifiers: KeyMods::none() }
    }

    /// A binding with the Ctrl modifier.
    pub fn ctrl(code: KeyCode) -> (r: KeyBinding)
        ensures
            r.code == code,
            r.modifiers == (KeyMods { ctrl: true, alt: false, shift: false }),
    {
        KeyBinding { code, modifiers: KeyMods { ctrl: true, alt: false, shift: false } }
    }

    /// A binding with the Alt modifier.
    pub fn alt(code: KeyCode) -> (r: KeyBinding)
        ensures
            r.code == code,
            r.modifiers == (KeyMods { ctrl: false, alt: true, shift: false }),
    {
        KeyBinding { code, modifiers: KeyMods { ctrl: false, alt: true, shift: false } }
    }

    /// A binding with the Shift modifier.
    pub fn shift(code: KeyCode) -> (r: KeyBinding)
        ensures
            r.code == code,
            r.modifiers == (KeyMods { ctrl: false, alt: false, shift: true }),
    {
        KeyBinding { code, modifiers: KeyMods { ctrl: false, alt: false, shift: true } }
    }

    /// Does this binding match a reported key event?
    pub fn matches(&self, code: KeyCode, modifiers: KeyMods) -> (r: bool)
        ensures
            r == (self.code == code && self.modifiers == modifiers),
    {
        self.code == code && self.modifiers == modifiers
    }
}

/// Does `p` occur in `t` starting at `idx`?
pub open spec fn has_at(t: Seq<char>, idx: int, p: Seq<char>) -> bool {
    0 <= idx && idx + p.len() <= t.len() && t.subrange(idx, idx + p.len()) == p
}

/// Strip modifier prefixes (`ctrl-`, `control-`, `alt-`, `meta-`,
/// `shift-`, and the short `c-`, `a-`, `s-`) from position `idx` on:
/// the modifiers found and the position where the key name starts.
pub open spec fn strip_mods(t: Seq<char>, idx: int) -> (KeyMods, int)
    decreases t.len() - idx,
{
    if has_at(t, idx, "ctrl-"@) && "ctrl-"@.len() == 5 {
        let (m, j) = strip_mods(t, idx + 5);
        (KeyMods { ctrl: true, alt: m.alt, shift: m.shift }, j)
    } else if has_at(t, idx, "control-"@) && "control-"@.len() == 8 {
        let (m, j) = strip_mods(t, idx + 8);
        (KeyMods { ctrl: true, alt: m.alt, shift: m.shift }, j)
    } else if has_at(t, idx, "alt-"@) && "alt-"@.len() == 4 {
        let (m, j) = strip_mods(t, idx + 4);
        (KeyMods { ctrl: m.ctrl, alt: true, shift: m.shift }, j)
    } else if has_at(t, idx, "meta-"@) && "meta-"@.len() == 5 {
        let (m, j) = strip_mods(t, idx + 5);
        (KeyMods { ctrl: m.ctrl, alt: true, shift: m.shift }, j)
    } else if has_at(t, idx, "shift-"@) && "shift-"@.len() == 6 {
        let (m, j) = strip_mods(t, idx + 6);
        (KeyMods { ctrl: m.ctrl, alt: m.alt, shift: true }, j)
    } else if has_at(t, idx, "c-"@) && "c-"@.len() == 2 {
        let (m, j) = strip_mods(t, idx + 2);
        (KeyMods { ctrl: true, alt: m.alt, shift: m.shift }, j)
    } else if has_at(t, idx, "a-"@) && "a-"@.len() == 2 {
        let (m, j) = strip_mods(t, idx + 2);
        (KeyMods { ctrl: m.ctrl, alt: true, shift: m.shift }, j)
    } else if has_at(t, idx, "s-"@) && "s-"@.len() == 2 {
        let (m, j) = strip_mods(t, idx + 2);
        (KeyMods { ctrl: m.ctrl, alt: m.alt, shift: true }, j)
    } else {
        (no_mods(), idx)
    }
}

/// Which key a (lower-cased) name denotes: the named special keys,
/// `f1`–`f24` function keys, or a single character standing for
/// itself.
pub open spec fn spec_key_code(ss: Seq<char>) -> Option<KeyCode> {
    if ss == "enter"@ || ss == "return"@ || ss == "cr"@ {
        Some(KeyCode::Enter)
    } else if ss == "esc"@ || ss == "escape"@ {
        Some(KeyCode::Esc)
    } else if ss == "tab"@ {
        Some(KeyCode::Tab)
    } else if ss == "backtab"@ || ss == "btab"@ {
        Some(KeyCode::BackTab)
    } else if ss == "backspace"@ || ss == "bs"@ {
        Some(KeyCode::Backspace)
    } else if ss == "delete"@ || ss == "del"@ {
        Some(KeyCode::Delete)
    } else if ss == "insert"@ || ss == "ins"@ {
        Some(KeyCode::Insert)
    } else if ss == "home"@ {
        Some(KeyCode::Home)
    } else if ss == "end"@ {
        Some(KeyCode::End)
    } else if ss == "pageup"@ || ss == "pgup"@ || ss == "page_up"@ {
        Some(KeyCode::PageUp)
    } else if ss == "pagedown"@ || ss == "pgdn"@ || ss == "pgdown"@ || ss == "page_down"@ {
        Some(KeyCode::PageDown)
    } else if ss == "up"@ || ss == "uparrow"@ {
        Some(KeyCode::Up)
    } else if ss == "down"@ || ss == "downarrow"@ {
        Some(KeyCode::Down)
    } else if ss == "left"@ || ss == "leftarrow"@ {
        Some(KeyCode::Left)
    } else if ss == "right"@ || ss == "rightarrow"@ {
        Some(KeyCode::Right)
    } else if ss == "space"@ || ss == "spc"@ {
        Some(KeyCode::Char(' '))
    } else if ss == "lt"@ || ss == "less"@ {
        Some(KeyCode::Char('<'))
    } else if ss == "gt"@ || ss == "greater"@ {
        Some(KeyCode::Char('>'))
    } else if ss == "bar"@ || ss == "pipe"@ {
        Some(KeyCode::Char('|'))
    } else if ss == "bslash"@ || ss == "backslash"@ {
        Some(KeyCode::Char('\\'))
    } else if ss.len() >= 2 && ss[0] == 'f' && (forall|k: int|
        1 <= k < ss.len() ==> is_digit(#[trigger] ss[k])) {
        let v = digits_val(ss.subrange(1, ss.len() as int));
        if 1 <= v <= 24 {
            Some(KeyCode::F(v as u8))
        } else {
            None
        }
    } else if ss.len() == 1 {
        Some(KeyCode::Char(ss[0]))
    } else {
        None
    }
}

/// Which binding a key string denotes: the string is trimmed
/// (Unicode whitespace) and lower-cased (std's Unicode fold, named
/// `lower_of`), modifier prefixes are stripped, and the rest must
/// name a key.
pub open spec fn spec_parse_key(s: Seq<char>) -> Option<KeyBinding> {
    let t = lower_of(trim_of(s));
    if t.len() == 0 {
        None
    } else {
        let (mods, idx) = strip_mods(t, 0);
        match spec_key_code(t.skip(idx)) {
            Some(code) => Some(KeyBinding { code, modifiers: mods }),
            None => None,
        }
    }
}

/// The message rejecting a key name that `spec_key_code` does not
/// recognise: malformed or out-of-range function keys are called out,
/// anything else is an unknown key.
pub open spec fn spec_key_err(ss: Seq<char>) -> Seq<char> {
    if ss.len() >= 2 && ss[0] == 'f' {
        if forall|k: int| 1 <= k < ss.len() ==> is_digit(#[trigger] ss[k]) {
            "Function key out of range (1-24): "@ + ss
        } else {
            "Invalid function key: "@ + ss
        }
    } else {
        "Unknown key: "@ + ss
    }
}

/// The message `parse_key` rejects `s` with, when it rejects it.
pub open spec fn spec_parse_key_err(s: Seq<char>) -> Seq<char> {
    let t = lower_of(trim_of(s));
    if t.len() == 0 {
        "Empty key string"@
    } else {
        spec_key_err(t.skip(strip_mods(t, 0).1))
    }
}

/// Does `p` occur in `t` starting at `idx`?
#[verifier::loop_isolation(false)]
fn has_prefix_at(t: &Vec<char>, idx: usize, p: &str) -> (r: bool)
    ensures
        r == has_at(t@, idx as int, p@),
{
    let pc = str_to_chars(p);
    if idx > t.len() || t.len() - idx < pc.len() {
        return false;
    }
    let mut k: usize = 0;
    while k < pc.len()
        invariant
            k <= pc@.len(),
            idx + pc@.len() <= t@.len(),
            pc@ == p@,
            forall|m: int| 0 <= m < k ==> t@[idx + m] == pc@[m],
        decreases pc@.len() - k,
    {
        if t[idx + k] != pc[k] {
            proof {
                assert(t@.subrange(idx as int, idx + p@.len()) != p@) by {
                    assert(t@.subrange(idx as int, idx + p@.len())[k as int] != p@[k as int]);
                }
            }
            return false;
        }
        k += 1;
    }
    proof {
        assert(t@.subrange(idx as int, idx + p@.len()) =~= p@);
    }
    true
}

/// The characters of `t` from `idx` on.
fn tail_chars(t: &Vec<char>, idx: usize) -> (r: Vec<char>)
    requires
        idx <= t@.len(),
    ensures
        r@ == t@.skip(idx as int),
{
    let mut r: Vec<char> = Vec::new();
    let mut k: usize = idx;
    while k < t.len()
        invariant
            idx <= k <= t@.len(),
            r@ == t@.subrange(idx as int, k as int),
        decreases t@.len() - k,
    {
        r.push(t[k]);
        proof {
            assert(r@ =~= t@.subrange(idx as int, k + 1 as int));
        }
        k += 1;
    }
    proof {
        assert(r@ =~= t@.skip(idx as int));
    }
    r
}

/// Is the tail equal to the literal?
fn tail_is(ss: &Vec<char>, lit: &str) -> (r: bool)
    ensures
        r == (ss@ == lit@),
{
    let lc = str_to_chars(lit);
    chars_eq(ss, &lc)
}

/// The message `prefix` followed by the name `ss`.
fn msg_with(prefix: &str, ss: &Vec<char>) -> (m: String)
    ensures
        m@ == prefix@ + ss@,
{
    let mut m = String::from_str(prefix);
    let tail = chars_to_string(ss);
    m.append(tail.as_str());
    m
}

/// Which key the (already trimmed and lower-cased) name `ss` denotes,
/// or the exact message rejecting it; mirrors `spec_key_code` and
/// `spec_key_err`.
#[verifier::loop_isolation(false)]
#[verifier::rlimit(100)]
fn key_code_of(ss: &Vec<char>) -> (r: Result<KeyCode, String>)
    ensures
        match r {
            Ok(c) => spec_key_code(ss@) == Some(c),
            Err(m) => spec_key_code(ss@) == None::<KeyCode> && m@ == spec_key_err(ss@),
        },
{
    if tail_is(ss, "enter") || tail_is(ss, "return") || tail_is(ss, "cr") {
        Ok(KeyCode::Enter)
    } else if tail_is(ss, "esc") || tail_is(ss, "escape") {
        Ok(KeyCode::Esc)
    } else if tail_is(ss, "tab") {
        Ok(KeyCode::Tab)
    } else if tail_is(ss, "backtab") || tail_is(ss, "btab") {
        Ok(KeyCode::BackTab)
    } else if tail_is(ss, "backspace") || tail_is(ss, "bs") {
        Ok(KeyCode::Backspace)
    } else if tail_is(ss, "delete") || tail_is(ss, "del") {
        Ok(KeyCode::Delete)
    } else if tail_is(ss, "insert") || tail_is(ss, "ins") {
        Ok(KeyCode::Insert)
    } else if tail_is(ss, "home") {
        Ok(KeyCode::Home)
    } else if tail_is(ss, "end") {
        Ok(KeyCode::End)
    } else if tail_is(ss, "pageup") || tail_is(ss, "pgup") || tail_is(ss, "page_up") {
        Ok(KeyCode::PageUp)
    } else if tail_is(ss, "pagedown") || tail_is(ss, "pgdn") || tail_is(ss, "pgdown") || tail_is(
        ss,
        "page_down",
    ) {
        Ok(KeyCode::PageDown)
    } else if tail_is(ss, "up") || tail_is(ss, "uparrow") {
        Ok(KeyCode::Up)
    } else if tail_is(ss, "down") || tail_is(ss, "downarrow") {
        Ok(KeyCode::Down)
    } else if tail_is(ss, "left") || tail_is(ss, "leftarrow") {
        Ok(KeyCode::Left)
    } else if tail_is(ss, "right") || tail_is(ss, "rightarrow") {
        Ok(KeyCode::Right)
    } else if tail_is(ss, "space") || tail_is(ss, "spc") {
        Ok(KeyCode::Char(' '))
    } else if tail_is(ss, "lt") || tail_is(ss, "less") {
        Ok(KeyCode::Char('<'))
    } else if tail_is(ss, "gt") || tail_is(ss, "greater") {
        Ok(KeyCode::Char('>'))
    } else if tail_is(ss, "bar") || tail_is(ss, "pipe") {
        Ok(KeyCode::Char('|'))
    } else if tail_is(ss, "bslash") || tail_is(ss, "backslash") {
        Ok(KeyCode::Char('\\'))
    } else {
        let n = ss.len();
        if n >= 2 && ss[0] == 'f' {
            let mut all_digits: bool = true;
            let mut k: usize = 1;
            while k < n
                invariant
                    1 <= k <= n,
                    n == ss@.len(),
                    all_digits == (forall|m: int| 1 <= m < k ==> is_digit(#[trigger] ss@[m])),
                decreases n - k,
            {
                let c = ss[k];
                if !('0' <= c && c <= '9') {
                    all_digits = false;
                }
                k += 1;
            }
            if !all_digits {
                return Err(msg_with("Invalid function key: ", ss));
            }
            let ghost ds = ss@.subrange(1, ss@.len() as int);
            proof {
                assert(forall|m: int| 0 <= m < ds.len() ==> is_digit(#[trigger] ds[m]));
            }
            let mut val: u64 = 0;
            let mut big: bool = false;
            let mut k2: usize = 1;
            while k2 < n
                invariant
                    1 <= k2 <= n,
                    n == ss@.len(),
                    ds == ss@.subrange(1, ss@.len() as int),
                    forall|m: int| 0 <= m < ds.len() ==> is_digit(#[trigger] ds[m]),
                    !big ==> val == digits_val(ss@.subrange(1, k2 as int)),
                    !big ==> val <= 24,
                    big ==> digits_val(ss@.subrange(1, k2 as int)) > 24,
                decreases n - k2,
            {
                let d: u64 = (ss[k2] as u32 as u64) - 48;
                proof {
                    assert(is_digit(ss@[k2 as int]));
                    assert(0 <= d <= 9);
                    assert(ss@.subrange(1, k2 + 1 as int).drop_last() =~= ss@.subrange(
                        1,
                        k2 as int,
                    ));
                    lemma_digits_val_extend(ss@.subrange(1, k2 + 1 as int));
                }
                if big {
                } else if val * 10 + d > 24 {
                    big = true;
                } else {
                    val = val * 10 + d;
                }
                k2 += 1;
            }
            if big {
                proof {
                    assert(ss@.subrange(1, k2 as int) =~= ds);
                }
                return Err(msg_with("Function key out of range (1-24): ", ss));
            }
            proof {
                assert(ss@.subrange(1, k2 as int) =~= ds);
            }
            if val >= 1 {
                Ok(KeyCode::F(val as u8))
            } else {
                Err(msg_with("Function key out of range (1-24): ", ss))
            }
        } else if n == 1 {
            Ok(KeyCode::Char(ss[0]))
        } else {
            Err(msg_with("Unknown key: ", ss))
        }
    }
}

/// Combine two modifier sets.
pub open spec fn mods_or(a: KeyMods, b: KeyMods) -> KeyMods {
    KeyMods { ctrl: a.ctrl || b.ctrl, alt: a.alt || b.alt, shift: a.shift || b.shift }
}

/// Parse a key string into a binding. Single characters, the named
/// special keys, `f1`–`f24`, and any of these behind `ctrl-`/`alt-`/
/// `shift-` (or `control-`/`meta-`, or the short `c-`/`a-`/`s-`)
/// prefixes are accepted, in any letter case (std's Unicode fold,
/// named `lower_of`); the result is exactly what `spec_parse_key`
/// describes, and anything it does not recognise is rejected with
/// exactly the message `spec_parse_key_err` gives.
#[verifier::loop_isolation(false)]
#[verifier::rlimit(100)]
pub fn parse_key(s: &str) -> (r: Result<KeyBinding, String>)
    ensures
        match r {
            Ok(kb) => spec_parse_key(s@) == Some(kb),
            Err(m) => spec_parse_key(s@) == None::<KeyBinding> && m@ == spec_parse_key_err(s@),
        },
{
    let owned = String::from_str(s);
    let trimmed = trim_text(&owned);
    let lowered = lowercase(trimmed.as_str());
    let t = str_to_chars(lowered.as_str());
    if t.len() == 0 {
        return Err(String::from_str("Empty key string"));
    }
    let ghost t0 = t@;
    let mut ctrl: bool = false;
    let mut alt: bool = false;
    let mut shift: bool = false;
    let mut idx: usize = 0;
    let mut done: bool = false;
    while !done
        invariant
            idx <= t@.len(),
            t@ == t0,
            strip_mods(t0, 0) == (
                mods_or(
                    KeyMods { ctrl, alt, shift },
                    strip_mods(t0, idx as int).0,
                ),
                strip_mods(t0, idx as int).1,
            ),
            done ==> strip_mods(t0, idx as int) == (no_mods(), idx as int),
        decreases t@.len() - idx + (if done { 0int } else { 1int }),
    {
        proof {
            reveal_strlit("ctrl-");
            reveal_strlit("control-");
            reveal_strlit("alt-");
            reveal_strlit("meta-");
            reveal_strlit("shift-");
            reveal_strlit("c-");
            reveal_strlit("a-");
            reveal_strlit("s-");
        }
        if has_prefix_at(&t, idx, "ctrl-") {
            ctrl = true;
            idx = idx + 5;
        } else if has_prefix_at(&t, idx, "control-") {
            ctrl = true;
            idx = idx + 8;
        } else if has_prefix_at(&t, idx, "alt-") {
            alt = true;
            idx = idx + 4;
        } else if has_prefix_at(&t, idx, "meta-") {
            alt = true;
            idx = idx + 5;
        } else if has_prefix_at(&t, idx, "shift-") {
            shift = true;
            idx = idx + 6;
        } else if has_prefix_at(&t, idx, "c-") {
            ctrl = true;
            idx = idx + 2;
        } else if has_prefix_at(&t, idx, "a-") {
            alt = true;
            idx = idx + 2;
        } else if has_prefix_at(&t, idx, "s-") {
            shift = true;
            idx = idx + 2;
        } else {
            proof {
                assert(strip_mods(t0, idx as int) == (no_mods(), idx as int));
            }
            done = true;
        }
    }
    let mods = KeyMods { ctrl, alt, shift };
    proof {
        assert(strip_mods(t0, idx as int) == (no_mods(), idx as int));
        assert(strip_mods(t0, 0).0 == mods);
        assert(strip_mods(t0, 0).1 == idx as int);
    }
    let ss = tail_chars(&t, idx);
    let code = match key_code_of(&ss) {
        Ok(c) => c,
        Err(m) => {
            return Err(m);
        },
    };
    Ok(KeyBinding { code, modifiers: mods })
}

/// The display name of a key code: `Space` for the space character,
/// upper-cased single letters, the special keys by name, `F1`–`F24`.
pub open spec fn spec_format_code(code: KeyCode) -> Seq<char> {
    match code {
        KeyCode::Char(c) => if c == ' ' {
            "Space"@
        } else if 'a' <= c <= 'z' {
            seq![upper_char(c)]
        } else {
            seq![c]
        },
        KeyCode::Enter => "Enter"@,
        KeyCode::Esc => "Esc"@,
        KeyCode::Tab => "Tab"@,
        KeyCode::BackTab => "BackTab"@,
        KeyCode::Backspace => "Backspace"@,
        KeyCode::Delete => "Delete"@,
        KeyCode::Insert => "Insert"@,
        KeyCode::Home => "Home"@,
        KeyCode::End => "End"@,
        KeyCode::PageUp => "PgUp"@,
        KeyCode::PageDown => "PgDn"@,
        KeyCode::Up => "Up"@,
        KeyCode::Down => "Down"@,
        KeyCode::Left => "Left"@,
        KeyCode::Right => "Right"@,
        KeyCode::F(n) => seq!['F'] + dec_digits(n as nat),
        KeyCode::Null => "Null"@,
    }
}

/// The display form of a binding: `Ctrl-`, `Alt-` and `Shift-`
/// prefixes, then the key's display name.
pub open spec fn spec_format_key(b: KeyBinding) -> Seq<char> {
    (if b.modifiers.ctrl {
        "Ctrl-"@
    } else {
        Seq::empty()
    }) + (if b.modifiers.alt {
        "Alt-"@
    } else {
        Seq::empty()
    }) + (if b.modifiers.shift {
        "Shift-"@
    } else {
        Seq::empty()
    }) + spec_format_code(b.code)
}

/// The display name of a key code.
fn format_code(code: &KeyCode) -> (r: String)
    ensures
        r@ == spec_format_code(*code),
{
    match code {
        KeyCode::Char(c) => {
            if *c == ' ' {
                String::from_str("Space")
            } else if 'a' <= *c && *c <= 'z' {
                let mut out = String::new();
                push_char(&mut out, ((*c as u8) - 32) as char);
                proof {
                    assert(out@ =~= seq![upper_char(*c)]);
                }
                out
            } else {
                let mut out = String::new();
                push_char(&mut out, *c);
                proof {
                    assert(out@ =~= seq![*c]);
                }
                out
            }
        },
        KeyCode::Enter => String::from_str("Enter"),
        KeyCode::Esc => String::from_str("Esc"),
        KeyCode::Tab => String::from_str("Tab"),
        KeyCode::BackTab => String::from_str("BackTab"),
        KeyCode::Backspace => String::from_str("Backspace"),
        KeyCode::Delete => String::from_str("Delete"),
        KeyCode::Insert => String::from_str("Insert"),
        KeyCode::Home => String::from_str("Home"),
        KeyCode::End => String::from_str("End"),
        KeyCode::PageUp => String::from_str("PgUp"),
        KeyCode::PageDown => String::from_str("PgDn"),
        KeyCode::Up => String::from_str("Up"),
        KeyCode::Down => String::from_str("Down"),
        KeyCode::Left => String::from_str("Left"),
        KeyCode::Right => String::from_str("Right"),
        KeyCode::F(n) => {
            let mut out = String::from_str("F");
            let digits = u64_to_chars(*n as u64);
            let ds = chars_to_string(&digits);
            out.append(ds.as_str());
            proof {
                reveal_strlit("F");
                assert(out@ =~= seq!['F'] + dec_digits(*n as nat));
            }
            out
        },
        KeyCode::Null => String::from_str("Null"),
    }
}

/// Format a binding into its human-readable string: modifier prefixes,
/// then the key's display name; exactly what `spec_format_key` says.
pub fn format_key(binding: &KeyBinding) -> (r: String)
    ensures
        r@ == spec_format_key(*binding),
{
    let mut out = String::new();
    if binding.modifiers.ctrl {
        out.append("Ctrl-");
    }
    if binding.modifiers.alt {
        out.append("Alt-");
    }
    if binding.modifiers.shift {
        out.append("Shift-");
    }
    let code = format_code(&binding.code);
    out.append(code.as_str());
    proof {
        assert(out@ =~= spec_format_key(*binding));
    }
    out
}

/// The compact display name of a key code, for dense help text.
pub open spec fn spec_format_compact_code(code: KeyCode) -> Seq<char> {
    match code {
        KeyCode::Char(c) => if c == ' ' {
            "Spc"@
        } else {
            seq![c]
        },
        KeyCode::Enter => "Ret"@,
        KeyCode::Esc => "Esc"@,
        KeyCode::Tab => "Tab"@,
        KeyCode::BackTab => "S-Tab"@,
        KeyCode::Backspace => "BS"@,
        KeyCode::Delete => "Del"@,
        KeyCode::Up => "↑"@,
        KeyCode::Down => "↓"@,
        KeyCode::Left => "←"@,
        KeyCode::Right => "→"@,
        KeyCode::PageUp => "PgU"@,
        KeyCode::PageDown => "PgD"@,
        KeyCode::F(n) => seq!['F'] + dec_digits(n as nat),
        _ => spec_format_code(code),
    }
}

/// The compact display form of a binding: single-letter modifier
/// prefixes (`C-`, `A-`, `S-`), then the compact key name.
pub open spec fn spec_format_compact(b: KeyBinding) -> Seq<char> {
    (if b.modifiers.ctrl {
        "C-"@
    } else {
        Seq::empty()
    }) + (if b.modifiers.alt {
        "A-"@
    } else {
        Seq::empty()
    }) + (if b.modifiers.shift {
        "S-"@
    } else {
        Seq::empty()
    }) + spec_format_compact_code(b.code)
}

/// Format a binding for dense help text; exactly what
/// `spec_format_compact` says.
pub fn format_key_compact(binding: &KeyBinding) -> (r: String)
    ensures
        r@ == spec_format_compact(*binding),
{
    let mut out = String::new();
    if binding.modifiers.ctrl {
        out.append("C-");
    }
    if binding.modifiers.alt {
        out.append("A-");
    }
    if binding.modifiers.shift {
        out.append("S-");
    }
    let code: String = match &binding.code {
        KeyCode::Char(c) => {
            if *c == ' ' {
                String::from_str("Spc")
            } else {
                let mut cs = String::new();
                push_char(&mut cs, *c);
                proof {
                    assert(cs@ =~= seq![*c]);
                }
                cs
            }
        },
        KeyCode::Enter => String::from_str("Ret"),
        KeyCode::Esc => String::from_str("Esc"),
        KeyCode::Tab => String::from_str("Tab"),
        KeyCode::BackTab => String::from_str("S-Tab"),
        KeyCode::Backspace => String::from_str("BS"),
        KeyCode::Delete => String::from_str("Del"),
        KeyCode::Up => String::from_str("↑"),
        KeyCode::Down => String::from_str("↓"),
        KeyCode::Left => String::from_str("←"),
        KeyCode::Right => String::from_str("→"),
        KeyCode::PageUp => String::from_str("PgU"),
        KeyCode::PageDown => String::from_str("PgD"),
        KeyCode::F(n) => {
            let mut fs = String::from_str("F");
            let digits = u64_to_chars(*n as u64);
            let ds = chars_to_string(&digits);
            fs.append(ds.as_str());
            proof {
                reveal_strlit("F");
                assert(fs@ =~= seq!['F'] + dec_digits(*n as nat));
            }
            fs
        },
        _ => format_code(&binding.code),
    };
    out.append(code.as_str());
    proof {
        assert(out@ =~= spec_format_compact(*binding));
    }
    out
}

} // verus!
