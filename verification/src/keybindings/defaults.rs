//! The default keybindings, used when no user configuration is given.

use vstd::prelude::*;

use crate::keybindings::action::Action;
use crate::keybindings::parse::{KeyBinding, KeyCode, KeyMods, no_mods};
use crate::keybindings::{kb_lookup, KeybindingMode, Keybindings};

verus! {

/// A binding with no modifiers.
pub open spec fn plain(code: KeyCode) -> KeyBinding {
    KeyBinding { code, modifiers: no_mods() }
}

/// The signature lookups of the default table: one or more bindings
/// per mode, with the actions the defaults give them.
pub open spec fn default_bindings_present(s: Seq<(KeybindingMode, KeyBinding, Action)>) -> bool {
    &&& kb_lookup(s, KeybindingMode::Normal, plain(KeyCode::Char('j'))) == Some(Action::Next)
    &&& kb_lookup(s, KeybindingMode::Normal, plain(KeyCode::Char('k'))) == Some(Action::Previous)
    &&& kb_lookup(s, KeybindingMode::Normal, plain(KeyCode::Char('q'))) == Some(Action::Quit)
    &&& kb_lookup(s, KeybindingMode::Normal, plain(KeyCode::Char('?'))) == Some(Action::ToggleHelp)
    &&& kb_lookup(s, KeybindingMode::Help, plain(KeyCode::Esc)) == Some(Action::ToggleHelp)
    &&& kb_lookup(s, KeybindingMode::ThemePicker, plain(KeyCode::Enter)) == Some(
        Action::ApplyTheme,
    )
    &&& kb_lookup(s, KeybindingMode::Interactive, plain(KeyCode::Esc)) == Some(
        Action::ExitInteractiveMode,
    )
    &&& kb_lookup(s, KeybindingMode::Interactive, plain(KeyCode::Tab)) == Some(
        Action::InteractiveNextLink,
    )
    &&& kb_lookup(s, KeybindingMode::InteractiveTable, plain(KeyCode::Char('h'))) == Some(
        Action::InteractiveLeft,
    )
    &&& kb_lookup(s, KeybindingMode::LinkFollow, plain(KeyCode::Enter)) == Some(
        Action::FollowLink,
    )
    &&& kb_lookup(s, KeybindingMode::LinkSearch, plain(KeyCode::Esc)) == Some(Action::ExitMode)
    &&& kb_lookup(s, KeybindingMode::Search, plain(KeyCode::Esc)) == Some(Action::ExitMode)
    &&& kb_lookup(s, KeybindingMode::ConfirmDialog, plain(KeyCode::Char('y'))) == Some(
        Action::ConfirmAction,
    )
}

/// The signature keys of the default table are bound to something.
pub open spec fn default_keys_bound(s: Seq<(KeybindingMode, KeyBinding, Action)>) -> bool {
    &&& kb_lookup(s, KeybindingMode::Normal, plain(KeyCode::Char('j'))) is Some
    &&& kb_lookup(s, KeybindingMode::Normal, plain(KeyCode::Char('q'))) is Some
    &&& kb_lookup(s, KeybindingMode::Help, plain(KeyCode::Esc)) is Some
    &&& kb_lookup(s, KeybindingMode::ThemePicker, plain(KeyCode::Enter)) is Some
    &&& kb_lookup(s, KeybindingMode::Interactive, plain(KeyCode::Esc)) is Some
    &&& kb_lookup(s, KeybindingMode::InteractiveTable, plain(KeyCode::Char('h'))) is Some
    &&& kb_lookup(s, KeybindingMode::LinkFollow, plain(KeyCode::Enter)) is Some
    &&& kb_lookup(s, KeybindingMode::LinkSearch, plain(KeyCode::Esc)) is Some
    &&& kb_lookup(s, KeybindingMode::Search, plain(KeyCode::Esc)) is Some
    &&& kb_lookup(s, KeybindingMode::ConfirmDialog, plain(KeyCode::Char('y'))) is Some
}

/// Signature lookups imply the keys are bound.
pub proof fn lemma_present_implies_bound(s: Seq<(KeybindingMode, KeyBinding, Action)>)
    requires
        default_bindings_present(s),
    ensures
        default_keys_bound(s),
{
}

/// Merging keeps every bound key bound.
pub proof fn lemma_bound_after_merge(
    before: Seq<(KeybindingMode, KeyBinding, Action)>,
    after: Seq<(KeybindingMode, KeyBinding, Action)>,
    other: Seq<(KeybindingMode, KeyBinding, Action)>,
)
    requires
        default_keys_bound(before),
        forall|m: KeybindingMode, b: KeyBinding|
            #[trigger] kb_lookup(after, m, b) == match kb_lookup(other, m, b) {
                Some(a) => Some(a),
                None => kb_lookup(before, m, b),
            },
    ensures
        default_keys_bound(after),
{
}

/// The entries `add_normal_mode` registers, in order.
pub open spec fn normal_defaults() -> Seq<(KeybindingMode, KeyBinding, Action)> {
    seq![
        (KeybindingMode::Normal, KeyBinding { code: KeyCode::Char('j'), modifiers: no_mods() }, Action::Next),
        (KeybindingMode::Normal, KeyBinding { code: KeyCode::Down, modifiers: no_mods() }, Action::Next),
        (KeybindingMode::Normal, KeyBinding { code: KeyCode::Char('k'), modifiers: no_mods() }, Action::Previous),
        (KeybindingMode::Normal, KeyBinding { code: KeyCode::Up, modifiers: no_mods() }, Action::Previous),
        (KeybindingMode::Normal, KeyBinding { code: KeyCode::Char('g'), modifiers: no_mods() }, Action::First),
        (KeybindingMode::Normal, KeyBinding { code: KeyCode::Char('G'), modifiers: KeyMods { ctrl: false, alt: false, shift: true } }, Action::Last),
        (KeybindingMode::Normal, KeyBinding { code: KeyCode::Char('d'), modifiers: no_mods() }, Action::PageDown),
        (KeybindingMode::Normal, KeyBinding { code: KeyCode::Char('u'), modifiers: no_mods() }, Action::PageUp),
        (KeybindingMode::Normal, KeyBinding { code: KeyCode::Char('p'), modifiers: no_mods() }, Action::JumpToParent),
        (KeybindingMode::Normal, KeyBinding { code: KeyCode::Enter, modifiers: no_mods() }, Action::ToggleExpand),
        (KeybindingMode::Normal, KeyBinding { code: KeyCode::Char(' '), modifiers: no_mods() }, Action::ToggleExpand),
        (KeybindingMode::Normal, KeyBinding { code: KeyCode::Tab, modifiers: no_mods() }, Action::ToggleFocus),
        (KeybindingMode::Normal, KeyBinding { code: KeyCode::Char('h'), modifiers: no_mods() }, Action::Collapse),
        (KeybindingMode::Normal, KeyBinding { code: KeyCode::Left, modifiers: no_mods() }, Action::Collapse),
        (KeybindingMode::Normal, KeyBinding { code: KeyCode::Char('l'), modifiers: no_mods() }, Action::Expand),
        (KeybindingMode::Normal, KeyBinding { code: KeyCode::Right, modifiers: no_mods() }, Action::Expand),
        (KeybindingMode::Normal, KeyBinding { code: KeyCode::Char('w'), modifiers: no_mods() }, Action::ToggleOutline),
        (KeybindingMode::Normal, KeyBinding { code: KeyCode::Char('['), modifiers: no_mods() }, Action::OutlineWidthDecrease),
        (KeybindingMode::Normal, KeyBinding { code: KeyCode::Char(']'), modifiers: no_mods() }, Action::OutlineWidthIncrease),
        (KeybindingMode::Normal, KeyBinding { code: KeyCode::Char('m'), modifiers: no_mods() }, Action::SetBookmark),
        (KeybindingMode::Normal, KeyBinding { code: KeyCode::Char('\''), modifiers: no_mods() }, Action::JumpToBookmark),
        (KeybindingMode::Normal, KeyBinding { code: KeyCode::Char('i'), modifiers: no_mods() }, Action::EnterInteractiveMode),
        (KeybindingMode::Normal, KeyBinding { code: KeyCode::Char('f'), modifiers: no_mods() }, Action::EnterLinkFollowMode),
        (KeybindingMode::Normal, KeyBinding { code: KeyCode::Char('/'), modifiers: no_mods() }, Action::EnterSearchMode),
        (KeybindingMode::Normal, KeyBinding { code: KeyCode::Char('r'), modifiers: no_mods() }, Action::ToggleRawSource),
        (KeybindingMode::Normal, KeyBinding { code: KeyCode::Char('t'), modifiers: no_mods() }, Action::ToggleThemePicker),
        (KeybindingMode::Normal, KeyBinding { code: KeyCode::Char('?'), modifiers: no_mods() }, Action::ToggleHelp),
        (KeybindingMode::Normal, KeyBinding { code: KeyCode::Char('y'), modifiers: no_mods() }, Action::CopyContent),
        (KeybindingMode::Normal, KeyBinding { code: KeyCode::Char('Y'), modifiers: KeyMods { ctrl: false, alt: false, shift: true } }, Action::CopyAnchor),
        (KeybindingMode::Normal, KeyBinding { code: KeyCode::Char('b'), modifiers: no_mods() }, Action::GoBack),
        (KeybindingMode::Normal, KeyBinding { code: KeyCode::Backspace, modifiers: no_mods() }, Action::GoBack),
        (KeybindingMode::Normal, KeyBinding { code: KeyCode::Char('e'), modifiers: no_mods() }, Action::OpenInEditor),
        (KeybindingMode::Normal, KeyBinding { code: KeyCode::Char('q'), modifiers: no_mods() }, Action::Quit),
        (KeybindingMode::Normal, KeyBinding { code: KeyCode::Esc, modifiers: no_mods() }, Action::Quit),
        (KeybindingMode::Normal, KeyBinding { code: KeyCode::Char('1'), modifiers: no_mods() }, Action::JumpToHeading1),
        (KeybindingMode::Normal, KeyBinding { code: KeyCode::Char('2'), modifiers: no_mods() }, Action::JumpToHeading2),
        (KeybindingMode::Normal, KeyBinding { code: KeyCode::Char('3'), modifiers: no_mods() }, Action::JumpToHeading3),
        (KeybindingMode::Normal, KeyBinding { code: KeyCode::Char('4'), modifiers: no_mods() }, Action::JumpToHeading4),
        (KeybindingMode::Normal, KeyBinding { code: KeyCode::Char('5'), modifiers: no_mods() }, Action::JumpToHeading5),
        (KeybindingMode::Normal, KeyBinding { code: KeyCode::Char('6'), modifiers: no_mods() }, Action::JumpToHeading6),
        (KeybindingMode::Normal, KeyBinding { code: KeyCode::Char('7'), modifiers: no_mods() }, Action::JumpToHeading7),
        (KeybindingMode::Normal, KeyBinding { code: KeyCode::Char('8'), modifiers: no_mods() }, Action::JumpToHeading8),
        (KeybindingMode::Normal, KeyBinding { code: KeyCode::Char('9'), modifiers: no_mods() }, Action::JumpToHeading9),
    ]
}

/// The entries `add_help_mode` registers, in order.
pub open spec fn help_defaults() -> Seq<(KeybindingMode, KeyBinding, Action)> {
    seq![
        (KeybindingMode::Help, KeyBinding { code: KeyCode::Char('j'), modifiers: no_mods() }, Action::HelpScrollDown),
        (KeybindingMode::Help, KeyBinding { code: KeyCode::Down, modifiers: no_mods() }, Action::HelpScrollDown),
        (KeybindingMode::Help, KeyBinding { code: KeyCode::Char('k'), modifiers: no_mods() }, Action::HelpScrollUp),
        (KeybindingMode::Help, KeyBinding { code: KeyCode::Up, modifiers: no_mods() }, Action::HelpScrollUp),
        (KeybindingMode::Help, KeyBinding { code: KeyCode::Char('?'), modifiers: no_mods() }, Action::ToggleHelp),
        (KeybindingMode::Help, KeyBinding { code: KeyCode::Esc, modifiers: no_mods() }, Action::ToggleHelp),
        (KeybindingMode::Help, KeyBinding { code: KeyCode::Char('y'), modifiers: no_mods() }, Action::CopyContent),
        (KeybindingMode::Help, KeyBinding { code: KeyCode::Char('Y'), modifiers: KeyMods { ctrl: false, alt: false, shift: true } }, Action::CopyAnchor),
        (KeybindingMode::Help, KeyBinding { code: KeyCode::Char('q'), modifiers: no_mods() }, Action::Quit),
    ]
}

/// The entries `add_theme_picker_mode` registers, in order.
pub open spec fn theme_picker_defaults() -> Seq<(KeybindingMode, KeyBinding, Action)> {
    seq![
        (KeybindingMode::ThemePicker, KeyBinding { code: KeyCode::Char('j'), modifiers: no_mods() }, Action::ThemePickerNext),
        (KeybindingMode::ThemePicker, KeyBinding { code: KeyCode::Down, modifiers: no_mods() }, Action::ThemePickerNext),
        (KeybindingMode::ThemePicker, KeyBinding { code: KeyCode::Char('k'), modifiers: no_mods() }, Action::ThemePickerPrevious),
        (KeybindingMode::ThemePicker, KeyBinding { code: KeyCode::Up, modifiers: no_mods() }, Action::ThemePickerPrevious),
        (KeybindingMode::ThemePicker, KeyBinding { code: KeyCode::Enter, modifiers: no_mods() }, Action::ApplyTheme),
        (KeybindingMode::ThemePicker, KeyBinding { code: KeyCode::Esc, modifiers: no_mods() }, Action::ToggleThemePicker),
        (KeybindingMode::ThemePicker, KeyBinding { code: KeyCode::Char('y'), modifiers: no_mods() }, Action::CopyContent),
        (KeybindingMode::ThemePicker, KeyBinding { code: KeyCode::Char('Y'), modifiers: KeyMods { ctrl: false, alt: false, shift: true } }, Action::CopyAnchor),
        (KeybindingMode::ThemePicker, KeyBinding { code: KeyCode::Char('q'), modifiers: no_mods() }, Action::Quit),
    ]
}

/// The entries `add_interactive_mode` registers, in order.
pub open spec fn interactive_defaults() -> Seq<(KeybindingMode, KeyBinding, Action)> {
    seq![
        (KeybindingMode::Interactive, KeyBinding { code: KeyCode::Esc, modifiers: no_mods() }, Action::ExitInteractiveMode),
        (KeybindingMode::Interactive, KeyBinding { code: KeyCode::Char('i'), modifiers: no_mods() }, Action::ExitInteractiveMode),
        (KeybindingMode::Interactive, KeyBinding { code: KeyCode::Char('j'), modifiers: no_mods() }, Action::InteractiveNext),
        (KeybindingMode::Interactive, KeyBinding { code: KeyCode::Down, modifiers: no_mods() }, Action::InteractiveNext),
        (KeybindingMode::Interactive, KeyBinding { code: KeyCode::Char('k'), modifiers: no_mods() }, Action::InteractivePrevious),
        (KeybindingMode::Interactive, KeyBinding { code: KeyCode::Up, modifiers: no_mods() }, Action::InteractivePrevious),
        (KeybindingMode::Interactive, KeyBinding { code: KeyCode::Tab, modifiers: no_mods() }, Action::InteractiveNextLink),
        (KeybindingMode::Interactive, KeyBinding { code: KeyCode::BackTab, modifiers: no_mods() }, Action::InteractivePreviousLink),
        (KeybindingMode::Interactive, KeyBinding { code: KeyCode::Enter, modifiers: no_mods() }, Action::InteractiveActivate),
        (KeybindingMode::Interactive, KeyBinding { code: KeyCode::Char(' '), modifiers: no_mods() }, Action::InteractiveActivate),
        (KeybindingMode::Interactive, KeyBinding { code: KeyCode::Char('d'), modifiers: no_mods() }, Action::PageDown),
        (KeybindingMode::Interactive, KeyBinding { code: KeyCode::PageDown, modifiers: no_mods() }, Action::PageDown),
        (KeybindingMode::Interactive, KeyBinding { code: KeyCode::Char('u'), modifiers: no_mods() }, Action::PageUp),
        (KeybindingMode::Interactive, KeyBinding { code: KeyCode::PageUp, modifiers: no_mods() }, Action::PageUp),
        (KeybindingMode::Interactive, KeyBinding { code: KeyCode::Char('y'), modifiers: no_mods() }, Action::CopyContent),
        (KeybindingMode::Interactive, KeyBinding { code: KeyCode::Char('q'), modifiers: no_mods() }, Action::Quit),
    ]
}

/// The entries `add_interactive_table_mode` registers, in order.
pub open spec fn interactive_table_defaults() -> Seq<(KeybindingMode, KeyBinding, Action)> {
    seq![
        (KeybindingMode::InteractiveTable, KeyBinding { code: KeyCode::Esc, modifiers: no_mods() }, Action::ExitMode),
        (KeybindingMode::InteractiveTable, KeyBinding { code: KeyCode::Char('h'), modifiers: no_mods() }, Action::InteractiveLeft),
        (KeybindingMode::InteractiveTable, KeyBinding { code: KeyCode::Left, modifiers: no_mods() }, Action::InteractiveLeft),
        (KeybindingMode::InteractiveTable, KeyBinding { code: KeyCode::Char('l'), modifiers: no_mods() }, Action::InteractiveRight),
        (KeybindingMode::InteractiveTable, KeyBinding { code: KeyCode::Right, modifiers: no_mods() }, Action::InteractiveRight),
        (KeybindingMode::InteractiveTable, KeyBinding { code: KeyCode::Char('j'), modifiers: no_mods() }, Action::InteractiveNext),
        (KeybindingMode::InteractiveTable, KeyBinding { code: KeyCode::Down, modifiers: no_mods() }, Action::InteractiveNext),
        (KeybindingMode::InteractiveTable, KeyBinding { code: KeyCode::Char('k'), modifiers: no_mods() }, Action::InteractivePrevious),
        (KeybindingMode::InteractiveTable, KeyBinding { code: KeyCode::Up, modifiers: no_mods() }, Action::InteractivePrevious),
        (KeybindingMode::InteractiveTable, KeyBinding { code: KeyCode::Char('y'), modifiers: no_mods() }, Action::CopyContent),
        (KeybindingMode::InteractiveTable, KeyBinding { code: KeyCode::Char('Y'), modifiers: KeyMods { ctrl: false, alt: false, shift: true } }, Action::CopyAnchor),
        (KeybindingMode::InteractiveTable, KeyBinding { code: KeyCode::Char('r'), modifiers: no_mods() }, Action::ToggleRawSource),
        (KeybindingMode::InteractiveTable, KeyBinding { code: KeyCode::Enter, modifiers: no_mods() }, Action::InteractiveActivate),
        (KeybindingMode::InteractiveTable, KeyBinding { code: KeyCode::Char('q'), modifiers: no_mods() }, Action::Quit),
    ]
}

/// The entries `add_link_follow_mode` registers, in order.
pub open spec fn link_follow_defaults() -> Seq<(KeybindingMode, KeyBinding, Action)> {
    seq![
        (KeybindingMode::LinkFollow, KeyBinding { code: KeyCode::Esc, modifiers: no_mods() }, Action::ExitMode),
        (KeybindingMode::LinkFollow, KeyBinding { code: KeyCode::Char('j'), modifiers: no_mods() }, Action::NextLink),
        (KeybindingMode::LinkFollow, KeyBinding { code: KeyCode::Down, modifiers: no_mods() }, Action::NextLink),
        (KeybindingMode::LinkFollow, KeyBinding { code: KeyCode::Tab, modifiers: no_mods() }, Action::NextLink),
        (KeybindingMode::LinkFollow, KeyBinding { code: KeyCode::Char('k'), modifiers: no_mods() }, Action::PreviousLink),
        (KeybindingMode::LinkFollow, KeyBinding { code: KeyCode::Up, modifiers: no_mods() }, Action::PreviousLink),
        (KeybindingMode::LinkFollow, KeyBinding { code: KeyCode::BackTab, modifiers: no_mods() }, Action::PreviousLink),
        (KeybindingMode::LinkFollow, KeyBinding { code: KeyCode::Enter, modifiers: no_mods() }, Action::FollowLink),
        (KeybindingMode::LinkFollow, KeyBinding { code: KeyCode::Char('/'), modifiers: no_mods() }, Action::LinkSearch),
        (KeybindingMode::LinkFollow, KeyBinding { code: KeyCode::Char('p'), modifiers: no_mods() }, Action::JumpToParent),
        (KeybindingMode::LinkFollow, KeyBinding { code: KeyCode::Char('1'), modifiers: no_mods() }, Action::JumpToLink1),
        (KeybindingMode::LinkFollow, KeyBinding { code: KeyCode::Char('2'), modifiers: no_mods() }, Action::JumpToLink2),
        (KeybindingMode::LinkFollow, KeyBinding { code: KeyCode::Char('3'), modifiers: no_mods() }, Action::JumpToLink3),
        (KeybindingMode::LinkFollow, KeyBinding { code: KeyCode::Char('4'), modifiers: no_mods() }, Action::JumpToLink4),
        (KeybindingMode::LinkFollow, KeyBinding { code: KeyCode::Char('5'), modifiers: no_mods() }, Action::JumpToLink5),
        (KeybindingMode::LinkFollow, KeyBinding { code: KeyCode::Char('6'), modifiers: no_mods() }, Action::JumpToLink6),
        (KeybindingMode::LinkFollow, KeyBinding { code: KeyCode::Char('7'), modifiers: no_mods() }, Action::JumpToLink7),
        (KeybindingMode::LinkFollow, KeyBinding { code: KeyCode::Char('8'), modifiers: no_mods() }, Action::JumpToLink8),
        (KeybindingMode::LinkFollow, KeyBinding { code: KeyCode::Char('9'), modifiers: no_mods() }, Action::JumpToLink9),
        (KeybindingMode::LinkFollow, KeyBinding { code: KeyCode::Char('y'), modifiers: no_mods() }, Action::CopyContent),
        (KeybindingMode::LinkFollow, KeyBinding { code: KeyCode::Char('Y'), modifiers: KeyMods { ctrl: false, alt: false, shift: true } }, Action::CopyAnchor),
        (KeybindingMode::LinkFollow, KeyBinding { code: KeyCode::Char('q'), modifiers: no_mods() }, Action::Quit),
    ]
}

/// The entries `add_link_search_mode` registers, in order.
pub open spec fn link_search_defaults() -> Seq<(KeybindingMode, KeyBinding, Action)> {
    seq![
        (KeybindingMode::LinkSearch, KeyBinding { code: KeyCode::Esc, modifiers: no_mods() }, Action::ExitMode),
        (KeybindingMode::LinkSearch, KeyBinding { code: KeyCode::Enter, modifiers: no_mods() }, Action::FollowLink),
        (KeybindingMode::LinkSearch, KeyBinding { code: KeyCode::Down, modifiers: no_mods() }, Action::NextLink),
        (KeybindingMode::LinkSearch, KeyBinding { code: KeyCode::Up, modifiers: no_mods() }, Action::PreviousLink),
        (KeybindingMode::LinkSearch, KeyBinding { code: KeyCode::Backspace, modifiers: no_mods() }, Action::SearchBackspace),
    ]
}

/// The entries `add_search_mode` registers, in order.
pub open spec fn search_defaults() -> Seq<(KeybindingMode, KeyBinding, Action)> {
    seq![
        (KeybindingMode::Search, KeyBinding { code: KeyCode::Esc, modifiers: no_mods() }, Action::ExitMode),
        (KeybindingMode::Search, KeyBinding { code: KeyCode::Enter, modifiers: no_mods() }, Action::ConfirmAction),
        (KeybindingMode::Search, KeyBinding { code: KeyCode::Backspace, modifiers: no_mods() }, Action::SearchBackspace),
    ]
}

/// The entries `add_confirm_dialog_mode` registers, in order.
pub open spec fn confirm_dialog_defaults() -> Seq<(KeybindingMode, KeyBinding, Action)> {
    seq![
        (KeybindingMode::ConfirmDialog, KeyBinding { code: KeyCode::Char('y'), modifiers: no_mods() }, Action::ConfirmAction),
        (KeybindingMode::ConfirmDialog, KeyBinding { code: KeyCode::Char('Y'), modifiers: KeyMods { ctrl: false, alt: false, shift: true } }, Action::ConfirmAction),
        (KeybindingMode::ConfirmDialog, KeyBinding { code: KeyCode::Enter, modifiers: no_mods() }, Action::ConfirmAction),
        (KeybindingMode::ConfirmDialog, KeyBinding { code: KeyCode::Char('n'), modifiers: no_mods() }, Action::CancelAction),
        (KeybindingMode::ConfirmDialog, KeyBinding { code: KeyCode::Char('N'), modifiers: KeyMods { ctrl: false, alt: false, shift: true } }, Action::CancelAction),
        (KeybindingMode::ConfirmDialog, KeyBinding { code: KeyCode::Esc, modifiers: no_mods() }, Action::CancelAction),
    ]
}

/// The whole default table, mode block by mode block, in
/// registration order.
pub open spec fn default_table() -> Seq<(KeybindingMode, KeyBinding, Action)> {
    normal_defaults() + help_defaults() + theme_picker_defaults() + interactive_defaults()
        + interactive_table_defaults() + link_follow_defaults() + link_search_defaults()
        + search_defaults() + confirm_dialog_defaults()
}

/// The default keybinding table.
#[verifier::rlimit(100)]
pub fn default_keybindings() -> (r: Keybindings)
    ensures
        r@ == default_table(),
        default_bindings_present(r@),
{
    let mut kb = Keybindings::new();
    proof {
        assert(kb@ =~= Seq::<(KeybindingMode, KeyBinding, Action)>::empty());
    }
    add_normal_mode(&mut kb);
    add_help_mode(&mut kb);
    add_theme_picker_mode(&mut kb);
    add_interactive_mode(&mut kb);
    add_interactive_table_mode(&mut kb);
    add_link_follow_mode(&mut kb);
    add_link_search_mode(&mut kb);
    add_search_mode(&mut kb);
    add_confirm_dialog_mode(&mut kb);
    proof {
        assert(kb@ =~= default_table());
    }
    kb
}

/// Normal-mode defaults: navigation, outline and bookmark operations,
/// mode transitions, view toggles, clipboard, file history, quitting,
/// and jumping to headings by number.
#[verifier::rlimit(100)]
fn add_normal_mode(kb: &mut Keybindings)
    ensures
        final(kb)@ == old(kb)@ + normal_defaults(),
        kb_lookup(final(kb)@, KeybindingMode::Normal, plain(KeyCode::Char('j'))) == Some(
            Action::Next,
        ),
        kb_lookup(final(kb)@, KeybindingMode::Normal, plain(KeyCode::Char('k'))) == Some(
            Action::Previous,
        ),
        kb_lookup(final(kb)@, KeybindingMode::Normal, plain(KeyCode::Char('q'))) == Some(
            Action::Quit,
        ),
        kb_lookup(final(kb)@, KeybindingMode::Normal, plain(KeyCode::Char('?'))) == Some(
            Action::ToggleHelp,
        ),
        forall|m: KeybindingMode, b: KeyBinding|
            m != KeybindingMode::Normal ==> #[trigger] kb_lookup(final(kb)@, m, b) == kb_lookup(
                old(kb)@,
                m,
                b,
            ),
{
    let normal = KeybindingMode::Normal;
    // Navigation
    kb.set(normal, KeyBinding::key(KeyCode::Char('j')), Action::Next);
    kb.set(normal, KeyBinding::key(KeyCode::Down), Action::Next);
    kb.set(normal, KeyBinding::key(KeyCode::Char('k')), Action::Previous);
    kb.set(normal, KeyBinding::key(KeyCode::Up), Action::Previous);
    kb.set(normal, KeyBinding::key(KeyCode::Char('g')), Action::First);
    kb.set(normal, KeyBinding::shift(KeyCode::Char('G')), Action::Last);
    kb.set(normal, KeyBinding::key(KeyCode::Char('d')), Action::PageDown);
    kb.set(normal, KeyBinding::key(KeyCode::Char('u')), Action::PageUp);
    kb.set(normal, KeyBinding::key(KeyCode::Char('p')), Action::JumpToParent);
    // Outline
    kb.set(normal, KeyBinding::key(KeyCode::Enter), Action::ToggleExpand);
    kb.set(normal, KeyBinding::key(KeyCode::Char(' ')), Action::ToggleExpand);
    kb.set(normal, KeyBinding::key(KeyCode::Tab), Action::ToggleFocus);
    kb.set(normal, KeyBinding::key(KeyCode::Char('h')), Action::Collapse);
    kb.set(normal, KeyBinding::key(KeyCode::Left), Action::Collapse);
    kb.set(normal, KeyBinding::key(KeyCode::Char('l')), Action::Expand);
    kb.set(normal, KeyBinding::key(KeyCode::Right), Action::Expand);
    kb.set(normal, KeyBinding::key(KeyCode::Char('w')), Action::ToggleOutline);
    kb.set(normal, KeyBinding::key(KeyCode::Char('[')), Action::OutlineWidthDecrease);
    kb.set(normal, KeyBinding::key(KeyCode::Char(']')), Action::OutlineWidthIncrease);
    // Bookmarks
    kb.set(normal, KeyBinding::key(KeyCode::Char('m')), Action::SetBookmark);
    kb.set(normal, KeyBinding::key(KeyCode::Char('\'')), Action::JumpToBookmark);
    // Mode transitions
    kb.set(normal, KeyBinding::key(KeyCode::Char('i')), Action::EnterInteractiveMode);
    kb.set(normal, KeyBinding::key(KeyCode::Char('f')), Action::EnterLinkFollowMode);
    kb.set(normal, KeyBinding::key(KeyCode::Char('/')), Action::EnterSearchMode);
    // View
    kb.set(normal, KeyBinding::key(KeyCode::Char('r')), Action::ToggleRawSource);
    kb.set(normal, KeyBinding::key(KeyCode::Char('t')), Action::ToggleThemePicker);
    kb.set(normal, KeyBinding::key(KeyCode::Char('?')), Action::ToggleHelp);
    // Clipboard
    kb.set(normal, KeyBinding::key(KeyCode::Char('y')), Action::CopyContent);
    kb.set(normal, KeyBinding::shift(KeyCode::Char('Y')), Action::CopyAnchor);
    // File operations
    kb.set(normal, KeyBinding::key(KeyCode::Char('b')), Action::GoBack);
    kb.set(normal, KeyBinding::key(KeyCode::Backspace), Action::GoBack);
    kb.set(normal, KeyBinding::key(KeyCode::Char('e')), Action::OpenInEditor);
    // Application
    kb.set(normal, KeyBinding::key(KeyCode::Char('q')), Action::Quit);
    kb.set(normal, KeyBinding::key(KeyCode::Esc), Action::Quit);
    // Jump to heading by number
    kb.set(normal, KeyBinding::key(KeyCode::Char('1')), Action::JumpToHeading1);
    kb.set(normal, KeyBinding::key(KeyCode::Char('2')), Action::JumpToHeading2);
    kb.set(normal, KeyBinding::key(KeyCode::Char('3')), Action::JumpToHeading3);
    kb.set(normal, KeyBinding::key(KeyCode::Char('4')), Action::JumpToHeading4);
    kb.set(normal, KeyBinding::key(KeyCode::Char('5')), Action::JumpToHeading5);
    kb.set(normal, KeyBinding::key(KeyCode::Char('6')), Action::JumpToHeading6);
    kb.set(normal, KeyBinding::key(KeyCode::Char('7')), Action::JumpToHeading7);
    kb.set(normal, KeyBinding::key(KeyCode::Char('8')), Action::JumpToHeading8);
    kb.set(normal, KeyBinding::key(KeyCode::Char('9')), Action::JumpToHeading9);
    proof {
        assert(kb@ =~= old(kb)@ + normal_defaults());
    }
}

/// Help-popup defaults: scrolling, closing, clipboard, quitting.
#[verifier::rlimit(100)]
fn add_help_mode(kb: &mut Keybindings)
    ensures
        final(kb)@ == old(kb)@ + help_defaults(),
        kb_lookup(final(kb)@, KeybindingMode::Help, plain(KeyCode::Esc)) == Some(
            Action::ToggleHelp,
        ),
        forall|m: KeybindingMode, b: KeyBinding|
            m != KeybindingMode::Help ==> #[trigger] kb_lookup(final(kb)@, m, b) == kb_lookup(
                old(kb)@,
                m,
                b,
            ),
{
    let help = KeybindingMode::Help;
    kb.set(help, KeyBinding::key(KeyCode::Char('j')), Action::HelpScrollDown);
    kb.set(help, KeyBinding::key(KeyCode::Down), Action::HelpScrollDown);
    kb.set(help, KeyBinding::key(KeyCode::Char('k')), Action::HelpScrollUp);
    kb.set(help, KeyBinding::key(KeyCode::Up), Action::HelpScrollUp);
    kb.set(help, KeyBinding::key(KeyCode::Char('?')), Action::ToggleHelp);
    kb.set(help, KeyBinding::key(KeyCode::Esc), Action::ToggleHelp);
    kb.set(help, KeyBinding::key(KeyCode::Char('y')), Action::CopyContent);
    kb.set(help, KeyBinding::shift(KeyCode::Char('Y')), Action::CopyAnchor);
    kb.set(help, KeyBinding::key(KeyCode::Char('q')), Action::Quit);
    proof {
        assert(kb@ =~= old(kb)@ + help_defaults());
    }
}

/// Theme-picker defaults: cycling, applying, closing, quitting.
#[verifier::rlimit(100)]
fn add_theme_picker_mode(kb: &mut Keybindings)
    ensures
        final(kb)@ == old(kb)@ + theme_picker_defaults(),
        kb_lookup(final(kb)@, KeybindingMode::ThemePicker, plain(KeyCode::Enter)) == Some(
            Action::ApplyTheme,
        ),
        forall|m: KeybindingMode, b: KeyBinding|
            m != KeybindingMode::ThemePicker ==> #[trigger] kb_lookup(final(kb)@, m, b)
                == kb_lookup(old(kb)@, m, b),
{
    let picker = KeybindingMode::ThemePicker;
    kb.set(picker, KeyBinding::key(KeyCode::Char('j')), Action::ThemePickerNext);
    kb.set(picker, KeyBinding::key(KeyCode::Down), Action::ThemePickerNext);
    kb.set(picker, KeyBinding::key(KeyCode::Char('k')), Action::ThemePickerPrevious);
    kb.set(picker, KeyBinding::key(KeyCode::Up), Action::ThemePickerPrevious);
    kb.set(picker, KeyBinding::key(KeyCode::Enter), Action::ApplyTheme);
    kb.set(picker, KeyBinding::key(KeyCode::Esc), Action::ToggleThemePicker);
    kb.set(picker, KeyBinding::key(KeyCode::Char('y')), Action::CopyContent);
    kb.set(picker, KeyBinding::shift(KeyCode::Char('Y')), Action::CopyAnchor);
    kb.set(picker, KeyBinding::key(KeyCode::Char('q')), Action::Quit);
    proof {
        assert(kb@ =~= old(kb)@ + theme_picker_defaults());
    }
}

/// Interactive-mode defaults: element and link navigation, activation,
/// paging, clipboard, exiting, quitting.
#[verifier::rlimit(100)]
fn add_interactive_mode(kb: &mut Keybindings)
    ensures
        final(kb)@ == old(kb)@ + interactive_defaults(),
        kb_lookup(final(kb)@, KeybindingMode::Interactive, plain(KeyCode::Esc)) == Some(
            Action::ExitInteractiveMode,
        ),
        kb_lookup(final(kb)@, KeybindingMode::Interactive, plain(KeyCode::Tab)) == Some(
            Action::InteractiveNextLink,
        ),
        forall|m: KeybindingMode, b: KeyBinding|
            m != KeybindingMode::Interactive ==> #[trigger] kb_lookup(final(kb)@, m, b)
                == kb_lookup(old(kb)@, m, b),
{
    let inter = KeybindingMode::Interactive;
    kb.set(inter, KeyBinding::key(KeyCode::Esc), Action::ExitInteractiveMode);
    kb.set(inter, KeyBinding::key(KeyCode::Char('i')), Action::ExitInteractiveMode);
    kb.set(inter, KeyBinding::key(KeyCode::Char('j')), Action::InteractiveNext);
    kb.set(inter, KeyBinding::key(KeyCode::Down), Action::InteractiveNext);
    kb.set(inter, KeyBinding::key(KeyCode::Char('k')), Action::InteractivePrevious);
    kb.set(inter, KeyBinding::key(KeyCode::Up), Action::InteractivePrevious);
    kb.set(inter, KeyBinding::key(KeyCode::Tab), Action::InteractiveNextLink);
    kb.set(inter, KeyBinding::key(KeyCode::BackTab), Action::InteractivePreviousLink);
    kb.set(inter, KeyBinding::key(KeyCode::Enter), Action::InteractiveActivate);
    kb.set(inter, KeyBinding::key(KeyCode::Char(' ')), Action::InteractiveActivate);
    kb.set(inter, KeyBinding::key(KeyCode::Char('d')), Action::PageDown);
    kb.set(inter, KeyBinding::key(KeyCode::PageDown), Action::PageDown);
    kb.set(inter, KeyBinding::key(KeyCode::Char('u')), Action::PageUp);
    kb.set(inter, KeyBinding::key(KeyCode::PageUp), Action::PageUp);
    kb.set(inter, KeyBinding::key(KeyCode::Char('y')), Action::CopyContent);
    kb.set(inter, KeyBinding::key(KeyCode::Char('q')), Action::Quit);
    proof {
        assert(kb@ =~= old(kb)@ + interactive_defaults());
    }
}

/// Table-navigation defaults: cell movement, activation, clipboard,
/// view toggle, exiting, quitting.
#[verifier::rlimit(100)]
fn add_interactive_table_mode(kb: &mut Keybindings)
    ensures
        final(kb)@ == old(kb)@ + interactive_table_defaults(),
        kb_lookup(final(kb)@, KeybindingMode::InteractiveTable, plain(KeyCode::Char('h'))) == Some(
            Action::InteractiveLeft,
        ),
        forall|m: KeybindingMode, b: KeyBinding|
            m != KeybindingMode::InteractiveTable ==> #[trigger] kb_lookup(final(kb)@, m, b)
                == kb_lookup(old(kb)@, m, b),
{
    let table = KeybindingMode::InteractiveTable;
    kb.set(table, KeyBinding::key(KeyCode::Esc), Action::ExitMode);
    kb.set(table, KeyBinding::key(KeyCode::Char('h')), Action::InteractiveLeft);
    kb.set(table, KeyBinding::key(KeyCode::Left), Action::InteractiveLeft);
    kb.set(table, KeyBinding::key(KeyCode::Char('l')), Action::InteractiveRight);
    kb.set(table, KeyBinding::key(KeyCode::Right), Action::InteractiveRight);
    kb.set(table, KeyBinding::key(KeyCode::Char('j')), Action::InteractiveNext);
    kb.set(table, KeyBinding::key(KeyCode::Down), Action::InteractiveNext);
    kb.set(table, KeyBinding::key(KeyCode::Char('k')), Action::InteractivePrevious);
    kb.set(table, KeyBinding::key(KeyCode::Up), Action::InteractivePrevious);
    kb.set(table, KeyBinding::key(KeyCode::Char('y')), Action::CopyContent);
    kb.set(table, KeyBinding::shift(KeyCode::Char('Y')), Action::CopyAnchor);
    kb.set(table, KeyBinding::key(KeyCode::Char('r')), Action::ToggleRawSource);
    kb.set(table, KeyBinding::key(KeyCode::Enter), Action::InteractiveActivate);
    kb.set(table, KeyBinding::key(KeyCode::Char('q')), Action::Quit);
    proof {
        assert(kb@ =~= old(kb)@ + interactive_table_defaults());
    }
}

/// Link-follow defaults: link cycling, following, searching, numbered
/// jumps, clipboard, exiting, quitting.
#[verifier::rlimit(100)]
fn add_link_follow_mode(kb: &mut Keybindings)
    ensures
        final(kb)@ == old(kb)@ + link_follow_defaults(),
        kb_lookup(final(kb)@, KeybindingMode::LinkFollow, plain(KeyCode::Enter)) == Some(
            Action::FollowLink,
        ),
        forall|m: KeybindingMode, b: KeyBinding|
            m != KeybindingMode::LinkFollow ==> #[trigger] kb_lookup(final(kb)@, m, b)
                == kb_lookup(old(kb)@, m, b),
{
    let links = KeybindingMode::LinkFollow;
    kb.set(links, KeyBinding::key(KeyCode::Esc), Action::ExitMode);
    kb.set(links, KeyBinding::key(KeyCode::Char('j')), Action::NextLink);
    kb.set(links, KeyBinding::key(KeyCode::Down), Action::NextLink);
    kb.set(links, KeyBinding::key(KeyCode::Tab), Action::NextLink);
    kb.set(links, KeyBinding::key(KeyCode::Char('k')), Action::PreviousLink);
    kb.set(links, KeyBinding::key(KeyCode::Up), Action::PreviousLink);
    kb.set(links, KeyBinding::key(KeyCode::BackTab), Action::PreviousLink);
    kb.set(links, KeyBinding::key(KeyCode::Enter), Action::FollowLink);
    kb.set(links, KeyBinding::key(KeyCode::Char('/')), Action::LinkSearch);
    kb.set(links, KeyBinding::key(KeyCode::Char('p')), Action::JumpToParent);
    kb.set(links, KeyBinding::key(KeyCode::Char('1')), Action::JumpToLink1);
    kb.set(links, KeyBinding::key(KeyCode::Char('2')), Action::JumpToLink2);
    kb.set(links, KeyBinding::key(KeyCode::Char('3')), Action::JumpToLink3);
    kb.set(links, KeyBinding::key(KeyCode::Char('4')), Action::JumpToLink4);
    kb.set(links, KeyBinding::key(KeyCode::Char('5')), Action::JumpToLink5);
    kb.set(links, KeyBinding::key(KeyCode::Char('6')), Action::JumpToLink6);
    kb.set(links, KeyBinding::key(KeyCode::Char('7')), Action::JumpToLink7);
    kb.set(links, KeyBinding::key(KeyCode::Char('8')), Action::JumpToLink8);
    kb.set(links, KeyBinding::key(KeyCode::Char('9')), Action::JumpToLink9);
    kb.set(links, KeyBinding::key(KeyCode::Char('y')), Action::CopyContent);
    kb.set(links, KeyBinding::shift(KeyCode::Char('Y')), Action::CopyAnchor);
    kb.set(links, KeyBinding::key(KeyCode::Char('q')), Action::Quit);
    proof {
        assert(kb@ =~= old(kb)@ + link_follow_defaults());
    }
}

/// Link-search defaults: exiting, selecting, cycling, deleting.
#[verifier::rlimit(100)]
fn add_link_search_mode(kb: &mut Keybindings)
    ensures
        final(kb)@ == old(kb)@ + link_search_defaults(),
        kb_lookup(final(kb)@, KeybindingMode::LinkSearch, plain(KeyCode::Esc)) == Some(
            Action::ExitMode,
        ),
        forall|m: KeybindingMode, b: KeyBinding|
            m != KeybindingMode::LinkSearch ==> #[trigger] kb_lookup(final(kb)@, m, b)
                == kb_lookup(old(kb)@, m, b),
{
    let search = KeybindingMode::LinkSearch;
    kb.set(search, KeyBinding::key(KeyCode::Esc), Action::ExitMode);
    kb.set(search, KeyBinding::key(KeyCode::Enter), Action::FollowLink);
    kb.set(search, KeyBinding::key(KeyCode::Down), Action::NextLink);
    kb.set(search, KeyBinding::key(KeyCode::Up), Action::PreviousLink);
    kb.set(search, KeyBinding::key(KeyCode::Backspace), Action::SearchBackspace);
    proof {
        assert(kb@ =~= old(kb)@ + link_search_defaults());
    }
}

/// Outline-search defaults: exiting, confirming, deleting.
#[verifier::rlimit(100)]
fn add_search_mode(kb: &mut Keybindings)
    ensures
        final(kb)@ == old(kb)@ + search_defaults(),
        kb_lookup(final(kb)@, KeybindingMode::Search, plain(KeyCode::Esc)) == Some(
            Action::ExitMode,
        ),
        forall|m: KeybindingMode, b: KeyBinding|
            m != KeybindingMode::Search ==> #[trigger] kb_lookup(final(kb)@, m, b) == kb_lookup(
                old(kb)@,
                m,
                b,
            ),
{
    let search = KeybindingMode::Search;
    kb.set(search, KeyBinding::key(KeyCode::Esc), Action::ExitMode);
    kb.set(search, KeyBinding::key(KeyCode::Enter), Action::ConfirmAction);
    kb.set(search, KeyBinding::key(KeyCode::Backspace), Action::SearchBackspace);
    proof {
        assert(kb@ =~= old(kb)@ + search_defaults());
    }
}

/// Confirmation-dialog defaults: confirming and cancelling.
#[verifier::rlimit(100)]
fn add_confirm_dialog_mode(kb: &mut Keybindings)
    ensures
        final(kb)@ == old(kb)@ + confirm_dialog_defaults(),
        kb_lookup(final(kb)@, KeybindingMode::ConfirmDialog, plain(KeyCode::Char('y'))) == Some(
            Action::ConfirmAction,
        ),
        forall|m: KeybindingMode, b: KeyBinding|
            m != KeybindingMode::ConfirmDialog ==> #[trigger] kb_lookup(final(kb)@, m, b)
                == kb_lookup(old(kb)@, m, b),
{
    let confirm = KeybindingMode::ConfirmDialog;
    kb.set(confirm, KeyBinding::key(KeyCode::Char('y')), Action::ConfirmAction);
    kb.set(confirm, KeyBinding::shift(KeyCode::Char('Y')), Action::ConfirmAction);
    kb.set(confirm, KeyBinding::key(KeyCode::Enter), Action::ConfirmAction);
    kb.set(confirm, KeyBinding::key(KeyCode::Char('n')), Action::CancelAction);
    kb.set(confirm, KeyBinding::shift(KeyCode::Char('N')), Action::CancelAction);
    kb.set(confirm, KeyBinding::key(KeyCode::Esc), Action::CancelAction);
    proof {
        assert(kb@ =~= old(kb)@ + confirm_dialog_defaults());
    }
}

} // verus!
