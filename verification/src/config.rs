//! The viewer's configuration data: the UI and terminal settings, the
//! theme name they carry, and the pure updates the viewer applies.
//!
//! Loading and saving the configuration file is I/O and lives outside
//! the library; what is stored and how updates change it is specified
//! here.

use vstd::prelude::*;

verus! {

/// The colour themes the viewer offers.
#[derive(Clone, Copy, Debug, PartialEq, Eq, Structural)]
pub enum ThemeName {
    OceanDark,
    Nord,
    Dracula,
    Solarized,
    Monokai,
    Gruvbox,
    TokyoNight,
    CatppuccinMocha,
}

/// UI settings.
#[derive(Debug)]
pub struct UiConfig {
    pub theme: String,
    pub outline_width: u16,
}

/// Terminal settings.
#[derive(Debug)]
pub struct TerminalConfig {
    pub color_mode: String,
    pub warned_terminal_app: bool,
}

/// The whole configuration.
#[derive(Debug)]
pub struct Config {
    pub ui: UiConfig,
    pub terminal: TerminalConfig,
}

/// The default theme name.
pub fn default_theme() -> (r: String)
    ensures
        r@ == "OceanDark"@,
{
    String::from_str("OceanDark")
}

/// The default outline width.
pub fn default_outline_width() -> (r: u16)
    ensures
        r == 30u16,
{
    30
}

/// The default colour mode.
pub fn default_color_mode() -> (r: String)
    ensures
        r@ == "auto"@,
{
    String::from_str("auto")
}

impl Default for UiConfig {
    /// The default UI settings: the default theme, 30 columns of
    /// outline.
    fn default() -> (r: UiConfig)
        ensures
            r.theme@ == "OceanDark"@,
            r.outline_width == 30u16,
    {
        UiConfig { theme: default_theme(), outline_width: default_outline_width() }
    }
}

impl Default for TerminalConfig {
    /// The default terminal settings: automatic colour mode, no
    /// warning shown yet.
    fn default() -> (r: TerminalConfig)
        ensures
            r.color_mode@ == "auto"@,
            !r.warned_terminal_app,
    {
        TerminalConfig { color_mode: default_color_mode(), warned_terminal_app: false }
    }
}

impl Default for Config {
    /// The default configuration.
    fn default() -> (r: Config)
        ensures
            r.ui.theme@ == "OceanDark"@,
            r.ui.outline_width == 30u16,
            r.terminal.color_mode@ == "auto"@,
            !r.terminal.warned_terminal_app,
    {
        Config { ui: UiConfig::default(), terminal: TerminalConfig::default() }
    }
}

/// The stored name of each theme.
pub open spec fn theme_str(t: ThemeName) -> Seq<char> {
    match t {
        ThemeName::OceanDark => "OceanDark"@,
        ThemeName::Nord => "Nord"@,
        ThemeName::Dracula => "Dracula"@,
        ThemeName::Solarized => "Solarized"@,
        ThemeName::Monokai => "Monokai"@,
        ThemeName::Gruvbox => "Gruvbox"@,
        ThemeName::TokyoNight => "TokyoNight"@,
        ThemeName::CatppuccinMocha => "CatppuccinMocha"@,
    }
}

/// Which theme a stored name denotes; unrecognised names fall back to
/// the default theme.
pub open spec fn spec_theme_name(s: Seq<char>) -> ThemeName {
    if s == "Nord"@ {
        ThemeName::Nord
    } else if s == "Dracula"@ {
        ThemeName::Dracula
    } else if s == "Solarized"@ {
        ThemeName::Solarized
    } else if s == "Monokai"@ {
        ThemeName::Monokai
    } else if s == "Gruvbox"@ {
        ThemeName::Gruvbox
    } else if s == "TokyoNight"@ {
        ThemeName::TokyoNight
    } else if s == "CatppuccinMocha"@ {
        ThemeName::CatppuccinMocha
    } else {
        ThemeName::OceanDark
    }
}

impl Config {
    /// The theme the stored name denotes, falling back to the default
    /// theme for anything unrecognised.
    pub fn theme_name(&self) -> (r: ThemeName)
        ensures
            r == spec_theme_name(self.ui.theme@),
    {
        let t = &self.ui.theme;
        if *t == String::from_str("Nord") {
            ThemeName::Nord
        } else if *t == String::from_str("Dracula") {
            ThemeName::Dracula
        } else if *t == String::from_str("Solarized") {
            ThemeName::Solarized
        } else if *t == String::from_str("Monokai") {
            ThemeName::Monokai
        } else if *t == String::from_str("Gruvbox") {
            ThemeName::Gruvbox
        } else if *t == String::from_str("TokyoNight") {
            ThemeName::TokyoNight
        } else if *t == String::from_str("CatppuccinMocha") {
            ThemeName::CatppuccinMocha
        } else {
            ThemeName::OceanDark
        }
    }

    /// Store a theme choice. (Persisting the configuration to disk is
    /// the caller's step.)
    pub fn set_theme(&mut self, theme: ThemeName)
        ensures
            final(self).ui.theme@ == theme_str(theme),
            final(self).ui.outline_width == old(self).ui.outline_width,
            final(self).terminal.color_mode == old(self).terminal.color_mode,
            final(self).terminal.warned_terminal_app == old(self).terminal.warned_terminal_app,
    {
        self.ui.theme = match theme {
            ThemeName::OceanDark => String::from_str("OceanDark"),
            ThemeName::Nord => String::from_str("Nord"),
            ThemeName::Dracula => String::from_str("Dracula"),
            ThemeName::Solarized => String::from_str("Solarized"),
            ThemeName::Monokai => String::from_str("Monokai"),
            ThemeName::Gruvbox => String::from_str("Gruvbox"),
            ThemeName::TokyoNight => String::from_str("TokyoNight"),
            ThemeName::CatppuccinMocha => String::from_str("CatppuccinMocha"),
        };
    }

    /// Store a new outline width. (Persisting is the caller's step.)
    pub fn set_outline_width(&mut self, width: u16)
        ensures
            final(self).ui.outline_width == width,
            final(self).ui.theme == old(self).ui.theme,
            final(self).terminal.color_mode == old(self).terminal.color_mode,
            final(self).terminal.warned_terminal_app == old(self).terminal.warned_terminal_app,
    {
        self.ui.outline_width = width;
    }

    /// Record that the terminal-compatibility warning was shown.
    /// (Persisting is the caller's step.)
    pub fn set_warned_terminal_app(&mut self)
        ensures
            final(self).terminal.warned_terminal_app,
            final(self).terminal.color_mode == old(self).terminal.color_mode,
            final(self).ui.theme == old(self).ui.theme,
            final(self).ui.outline_width == old(self).ui.outline_width,
    {
        self.terminal.warned_terminal_app = true;
    }
}

/// Reading back a stored theme name gives back the theme that was
/// stored: `spec_theme_name` inverts `theme_str`.
pub proof fn lemma_theme_roundtrip(t: ThemeName)
    ensures
        spec_theme_name(theme_str(t)) == t,
{
    reveal_strlit("OceanDark");
    reveal_strlit("Nord");
    reveal_strlit("Dracula");
    reveal_strlit("Solarized");
    reveal_strlit("Monokai");
    reveal_strlit("Gruvbox");
    reveal_strlit("TokyoNight");
    reveal_strlit("CatppuccinMocha");
    assert(("OceanDark"@).len() == 9);
    assert(("Nord"@).len() == 4);
    assert(("Dracula"@).len() == 7);
    assert(("Solarized"@).len() == 9);
    assert(("Monokai"@).len() == 7);
    assert(("Gruvbox"@).len() == 7);
    assert(("TokyoNight"@).len() == 10);
    assert(("CatppuccinMocha"@).len() == 15);
    assert(("OceanDark"@)[0] == 'O' && ("Solarized"@)[0] == 'S');
    assert(("Dracula"@)[0] == 'D' && ("Monokai"@)[0] == 'M' && ("Gruvbox"@)[0] == 'G');
    assert(spec_theme_name(theme_str(ThemeName::OceanDark)) == ThemeName::OceanDark);
    assert(spec_theme_name(theme_str(ThemeName::Nord)) == ThemeName::Nord);
    assert(spec_theme_name(theme_str(ThemeName::Dracula)) == ThemeName::Dracula);
    assert(spec_theme_name(theme_str(ThemeName::Solarized)) == ThemeName::Solarized);
    assert(spec_theme_name(theme_str(ThemeName::Monokai)) == ThemeName::Monokai);
    assert(spec_theme_name(theme_str(ThemeName::Gruvbox)) == ThemeName::Gruvbox);
    assert(spec_theme_name(theme_str(ThemeName::TokyoNight)) == ThemeName::TokyoNight);
    assert(spec_theme_name(theme_str(ThemeName::CatppuccinMocha)) == ThemeName::CatppuccinMocha);
}

} // verus!
