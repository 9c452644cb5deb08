//! Keybinding tables, key string parsing and formatting, and the
//! configuration data around them.

use treemd::config::{Config, ThemeName};
use treemd::keybindings::{
    default_keybindings, format_key, format_key_compact, parse_key, Action, KeyBinding, KeyCode,
    KeyMods, KeybindingMode, Keybindings, KeybindingsConfig,
};

#[test]
fn test_default_normal_mode() {
    let kb = default_keybindings();

    assert_eq!(
        kb.get_action(KeybindingMode::Normal, KeyCode::Char('j'), KeyMods::none()),
        Some(Action::Next)
    );
    assert_eq!(
        kb.get_action(KeybindingMode::Normal, KeyCode::Char('k'), KeyMods::none()),
        Some(Action::Previous)
    );
    assert_eq!(
        kb.get_action(KeybindingMode::Normal, KeyCode::Char('q'), KeyMods::none()),
        Some(Action::Quit)
    );
    assert_eq!(
        kb.get_action(KeybindingMode::Normal, KeyCode::Char('?'), KeyMods::none()),
        Some(Action::ToggleHelp)
    );
}

#[test]
fn test_default_interactive_mode() {
    let kb = default_keybindings();

    assert_eq!(
        kb.get_action(KeybindingMode::Interactive, KeyCode::Esc, KeyMods::none()),
        Some(Action::ExitInteractiveMode)
    );
    assert_eq!(
        kb.get_action(KeybindingMode::Interactive, KeyCode::Tab, KeyMods::none()),
        Some(Action::InteractiveNextLink)
    );
}

#[test]
fn test_all_modes_have_bindings() {
    let kb = default_keybindings();

    let modes = [
        KeybindingMode::Normal,
        KeybindingMode::Help,
        KeybindingMode::ThemePicker,
        KeybindingMode::Interactive,
        KeybindingMode::InteractiveTable,
        KeybindingMode::LinkFollow,
        KeybindingMode::LinkSearch,
        KeybindingMode::Search,
        KeybindingMode::ConfirmDialog,
    ];

    for mode in modes {
        let bindings = kb.get_mode_bindings(mode);
        assert!(!bindings.is_empty(), "Mode {:?} has no bindings", mode);
        assert!(bindings.len() > 0, "Mode {:?} has empty bindings", mode);
    }
}

#[test]
fn test_default_keybindings_exist() {
    let kb = Keybindings::default();

    assert!(kb
        .get_action(KeybindingMode::Normal, KeyCode::Char('j'), KeyMods::none())
        .is_some());
    assert!(kb
        .get_action(KeybindingMode::Normal, KeyCode::Char('k'), KeyMods::none())
        .is_some());
    assert!(kb
        .get_action(KeybindingMode::Normal, KeyCode::Char('q'), KeyMods::none())
        .is_some());
}

#[test]
fn test_get_action() {
    let mut kb = Keybindings::new();
    kb.set(
        KeybindingMode::Normal,
        KeyBinding::key(KeyCode::Char('j')),
        Action::Next,
    );

    assert_eq!(
        kb.get_action(KeybindingMode::Normal, KeyCode::Char('j'), KeyMods::none()),
        Some(Action::Next)
    );
    assert_eq!(
        kb.get_action(KeybindingMode::Normal, KeyCode::Char('x'), KeyMods::none()),
        None
    );
}

#[test]
fn test_keys_for_action() {
    let mut kb = Keybindings::new();
    kb.set(
        KeybindingMode::Normal,
        KeyBinding::key(KeyCode::Char('j')),
        Action::Next,
    );
    kb.set(
        KeybindingMode::Normal,
        KeyBinding::key(KeyCode::Down),
        Action::Next,
    );

    let keys = kb.keys_for_action(KeybindingMode::Normal, Action::Next);
    assert_eq!(keys.len(), 2);
}

#[test]
fn test_merge() {
    let mut kb1 = Keybindings::new();
    kb1.set(
        KeybindingMode::Normal,
        KeyBinding::key(KeyCode::Char('j')),
        Action::Next,
    );

    let mut kb2 = Keybindings::new();
    kb2.set(
        KeybindingMode::Normal,
        KeyBinding::key(KeyCode::Char('j')),
        Action::Previous, // Override
    );
    kb2.set(
        KeybindingMode::Normal,
        KeyBinding::key(KeyCode::Char('x')),
        Action::Quit,
    );

    kb1.merge(&kb2);

    // j should be overridden
    assert_eq!(
        kb1.get_action(KeybindingMode::Normal, KeyCode::Char('j'), KeyMods::none()),
        Some(Action::Previous)
    );
    // x should be added
    assert_eq!(
        kb1.get_action(KeybindingMode::Normal, KeyCode::Char('x'), KeyMods::none()),
        Some(Action::Quit)
    );
}

#[test]
fn test_remove_binding() {
    let mut kb = Keybindings::new();
    kb.set(
        KeybindingMode::Normal,
        KeyBinding::key(KeyCode::Char('j')),
        Action::Next,
    );
    let removed = kb.remove(KeybindingMode::Normal, &KeyBinding::key(KeyCode::Char('j')));
    assert_eq!(removed, Some(Action::Next));
    assert_eq!(
        kb.get_action(KeybindingMode::Normal, KeyCode::Char('j'), KeyMods::none()),
        None
    );
}

#[test]
fn test_parse_simple_keys() {
    assert_eq!(parse_key("j").unwrap(), KeyBinding::key(KeyCode::Char('j')));
    assert_eq!(parse_key("?").unwrap(), KeyBinding::key(KeyCode::Char('?')));
    assert_eq!(parse_key("enter").unwrap(), KeyBinding::key(KeyCode::Enter));
    assert_eq!(parse_key("esc").unwrap(), KeyBinding::key(KeyCode::Esc));
    assert_eq!(parse_key("tab").unwrap(), KeyBinding::key(KeyCode::Tab));
    assert_eq!(parse_key("space").unwrap(), KeyBinding::key(KeyCode::Char(' ')));
}

#[test]
fn test_parse_with_modifiers() {
    assert_eq!(
        parse_key("ctrl-c").unwrap(),
        KeyBinding::ctrl(KeyCode::Char('c'))
    );
    assert_eq!(
        parse_key("alt-enter").unwrap(),
        KeyBinding::alt(KeyCode::Enter)
    );
    assert_eq!(
        parse_key("shift-tab").unwrap(),
        KeyBinding::shift(KeyCode::Tab)
    );
}

#[test]
fn test_parse_combined_modifiers() {
    let binding = parse_key("ctrl-alt-delete").unwrap();
    assert_eq!(binding.code, KeyCode::Delete);
    assert!(binding.modifiers.ctrl);
    assert!(binding.modifiers.alt);
}

#[test]
fn test_parse_function_keys() {
    assert_eq!(parse_key("f1").unwrap(), KeyBinding::key(KeyCode::F(1)));
    assert_eq!(parse_key("f12").unwrap(), KeyBinding::key(KeyCode::F(12)));
}

#[test]
fn test_parse_arrow_keys() {
    assert_eq!(parse_key("up").unwrap(), KeyBinding::key(KeyCode::Up));
    assert_eq!(parse_key("down").unwrap(), KeyBinding::key(KeyCode::Down));
    assert_eq!(parse_key("left").unwrap(), KeyBinding::key(KeyCode::Left));
    assert_eq!(parse_key("right").unwrap(), KeyBinding::key(KeyCode::Right));
}

#[test]
fn test_format_roundtrip() {
    let keys = vec!["j", "ctrl-c", "alt-enter", "shift-tab", "f1", "space"];
    for key_str in keys {
        let binding = parse_key(key_str).unwrap();
        let formatted = format_key(&binding).to_lowercase().replace('-', "-");
        // Parse again and compare
        let reparsed = parse_key(&formatted).unwrap();
        assert_eq!(binding, reparsed, "Roundtrip failed for: {}", key_str);
    }
}

#[test]
fn test_case_insensitive() {
    assert_eq!(parse_key("CTRL-C").unwrap(), parse_key("ctrl-c").unwrap());
    assert_eq!(parse_key("Alt-Enter").unwrap(), parse_key("alt-enter").unwrap());
}

#[test]
fn test_alternative_names() {
    assert_eq!(parse_key("return").unwrap(), parse_key("enter").unwrap());
    assert_eq!(parse_key("escape").unwrap(), parse_key("esc").unwrap());
    assert_eq!(parse_key("bs").unwrap(), parse_key("backspace").unwrap());
    assert_eq!(parse_key("del").unwrap(), parse_key("delete").unwrap());
    assert_eq!(parse_key("pgup").unwrap(), parse_key("pageup").unwrap());
}

#[test]
fn test_short_modifier_names() {
    assert_eq!(parse_key("c-c").unwrap(), parse_key("ctrl-c").unwrap());
    assert_eq!(parse_key("a-x").unwrap(), parse_key("alt-x").unwrap());
    assert_eq!(parse_key("s-tab").unwrap(), parse_key("shift-tab").unwrap());
}

#[test]
fn test_parse_rejections() {
    assert!(parse_key("").is_err());
    assert!(parse_key("   ").is_err());
    assert!(parse_key("notakey").is_err());
    assert!(parse_key("f0").is_err());
    assert!(parse_key("f25").is_err());
    assert!(parse_key("f1x").is_err());
}

#[test]
fn test_format_key_display() {
    assert_eq!(format_key(&parse_key("ctrl-c").unwrap()), "Ctrl-C");
    assert_eq!(format_key(&parse_key("space").unwrap()), "Space");
    assert_eq!(format_key(&parse_key("f12").unwrap()), "F12");
    assert_eq!(format_key(&parse_key("shift-tab").unwrap()), "Shift-Tab");
}

#[test]
fn test_format_key_compact_display() {
    assert_eq!(format_key_compact(&parse_key("ctrl-c").unwrap()), "C-c");
    assert_eq!(format_key_compact(&parse_key("enter").unwrap()), "Ret");
    assert_eq!(format_key_compact(&parse_key("up").unwrap()), "↑");
    assert_eq!(format_key_compact(&parse_key("space").unwrap()), "Spc");
}

#[test]
fn test_mode_display_names() {
    assert_eq!(KeybindingMode::Normal.display_name(), "Normal");
    assert_eq!(KeybindingMode::ThemePicker.display_name(), "Theme Picker");
    assert_eq!(KeybindingMode::InteractiveTable.display_name(), "Table Navigation");
}

#[test]
fn test_config_defaults_and_theme() {
    let config = Config::default();
    assert_eq!(config.ui.theme, "OceanDark");
    assert_eq!(config.ui.outline_width, 30);
    assert_eq!(config.terminal.color_mode, "auto");
    assert!(!config.terminal.warned_terminal_app);
    assert_eq!(config.theme_name(), ThemeName::OceanDark);
}

#[test]
fn test_config_set_theme_roundtrip() {
    let mut config = Config::default();
    config.set_theme(ThemeName::Gruvbox);
    assert_eq!(config.ui.theme, "Gruvbox");
    assert_eq!(config.theme_name(), ThemeName::Gruvbox);
    config.set_outline_width(44);
    assert_eq!(config.ui.outline_width, 44);
    config.set_warned_terminal_app();
    assert!(config.terminal.warned_terminal_app);
}

#[test]
fn test_unknown_theme_falls_back() {
    let mut config = Config::default();
    config.ui.theme = "NotATheme".to_string();
    assert_eq!(config.theme_name(), ThemeName::OceanDark);
}

#[test]
fn test_parse_unicode_case_fold() {
    // Non-ASCII letters fold like the rest: both spell the same key.
    assert_eq!(parse_key("\u{c9}").unwrap(), parse_key("\u{e9}").unwrap());
    assert_eq!(
        parse_key("\u{e9}").unwrap(),
        KeyBinding::key(KeyCode::Char('\u{e9}'))
    );
    // Non-ASCII whitespace trims away like ASCII whitespace.
    assert_eq!(
        parse_key("\u{a0}j\u{a0}").unwrap(),
        KeyBinding::key(KeyCode::Char('j'))
    );
    assert!(parse_key("\u{a0}\u{a0}").is_err());
}

#[test]
fn test_parse_error_messages() {
    assert_eq!(parse_key("").unwrap_err(), "Empty key string");
    assert_eq!(parse_key("   ").unwrap_err(), "Empty key string");
    assert_eq!(parse_key("notakey").unwrap_err(), "Unknown key: notakey");
    assert_eq!(parse_key("ctrl-notakey").unwrap_err(), "Unknown key: notakey");
    assert_eq!(parse_key("f1x").unwrap_err(), "Invalid function key: f1x");
    assert_eq!(
        parse_key("f25").unwrap_err(),
        "Function key out of range (1-24): f25"
    );
    assert_eq!(
        parse_key("f0").unwrap_err(),
        "Function key out of range (1-24): f0"
    );
}

#[test]
fn test_from_config_builds_bindings() {
    let config = KeybindingsConfig(vec![
        (
            KeybindingMode::Normal,
            vec![
                ("j".to_string(), Action::Next),
                ("ctrl-c".to_string(), Action::Quit),
            ],
        ),
        (
            KeybindingMode::Help,
            vec![("esc".to_string(), Action::ToggleHelp)],
        ),
    ]);
    let kb = Keybindings::from_config(&config).unwrap();
    assert_eq!(
        kb.get_action(KeybindingMode::Normal, KeyCode::Char('j'), KeyMods::none()),
        Some(Action::Next)
    );
    assert_eq!(
        kb.get_action(
            KeybindingMode::Normal,
            KeyCode::Char('c'),
            KeyMods { ctrl: true, alt: false, shift: false }
        ),
        Some(Action::Quit)
    );
    assert_eq!(
        kb.get_action(KeybindingMode::Help, KeyCode::Esc, KeyMods::none()),
        Some(Action::ToggleHelp)
    );
    assert_eq!(
        kb.get_action(KeybindingMode::Help, KeyCode::Char('j'), KeyMods::none()),
        None
    );
}

#[test]
fn test_from_config_rejects_bad_key() {
    let config = KeybindingsConfig(vec![(
        KeybindingMode::Normal,
        vec![("notakey".to_string(), Action::Next)],
    )]);
    let err = Keybindings::from_config(&config).unwrap_err();
    assert_eq!(err, "Unknown key: notakey");
}

#[test]
fn test_to_keybindings_overrides_defaults() {
    let config = KeybindingsConfig(vec![(
        KeybindingMode::Normal,
        vec![("j".to_string(), Action::Previous)],
    )]);
    let kb = config.to_keybindings();
    // The configuration wins for its key; untouched defaults stand.
    assert_eq!(
        kb.get_action(KeybindingMode::Normal, KeyCode::Char('j'), KeyMods::none()),
        Some(Action::Previous)
    );
    assert_eq!(
        kb.get_action(KeybindingMode::Normal, KeyCode::Char('q'), KeyMods::none()),
        Some(Action::Quit)
    );
}

#[test]
fn test_help_entries_groups_keys() {
    let mut kb = Keybindings::new();
    kb.set(KeybindingMode::Normal, KeyBinding::key(KeyCode::Char('j')), Action::Next);
    kb.set(KeybindingMode::Normal, KeyBinding::key(KeyCode::Down), Action::Next);
    kb.set(KeybindingMode::Normal, KeyBinding::key(KeyCode::Char('q')), Action::Quit);
    kb.set(KeybindingMode::Help, KeyBinding::key(KeyCode::Esc), Action::ToggleHelp);

    let entries = kb.help_entries(KeybindingMode::Normal);
    assert_eq!(entries.len(), 2);
    assert_eq!(entries[0].0, Action::Next);
    assert_eq!(entries[0].1, vec!["j".to_string(), "\u{2193}".to_string()]);
    assert_eq!(entries[1].0, Action::Quit);
    assert_eq!(entries[1].1, vec!["q".to_string()]);
}
