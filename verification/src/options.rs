//! The startup options that travel alongside a launch target, and the fixed
//! vocabularies of their values.

use crate::text::{looks_like_flag, lowered, same_text, text_of, to_lowercase};
use vstd::prelude::*;

verus! {

/// The theme name for a dark window.
pub open spec fn dark_theme() -> Seq<char> {
    "vscode-dark"@
}

/// The theme name for a light window.
pub open spec fn light_theme() -> Seq<char> {
    "vscode-light"@
}

/// What a theme value names, case-insensitively: `dark` and `vscode-dark`
/// name the dark theme, `light` and `vscode-light` the light one, and nothing
/// else names a theme.
pub open spec fn theme_named(value: Seq<char>) -> Option<Seq<char>> {
    let word = lowered(value);
    if word == "dark"@ || word == "vscode-dark"@ {
        Some(dark_theme())
    } else if word == "light"@ || word == "vscode-light"@ {
        Some(light_theme())
    } else {
        None
    }
}

/// Whether a lower-case word switches an option on.
pub open spec fn is_truthy_word(word: Seq<char>) -> bool {
    ||| word == "1"@
    ||| word == "true"@
    ||| word == "yes"@
    ||| word == "on"@
    ||| word == "open"@
    ||| word == "enabled"@
}

/// Whether a lower-case word switches an option off.
pub open spec fn is_falsy_word(word: Seq<char>) -> bool {
    ||| word == "0"@
    ||| word == "false"@
    ||| word == "no"@
    ||| word == "off"@
    ||| word == "closed"@
    ||| word == "close"@
    ||| word == "disabled"@
}

/// What a toggle value says, case-insensitively.
pub open spec fn toggle_named(value: Seq<char>) -> Option<bool> {
    let word = lowered(value);
    if is_truthy_word(word) {
        Some(true)
    } else if is_falsy_word(word) {
        Some(false)
    } else {
        None
    }
}

/// The options a launch may carry. Each is present or absent on its own.
#[derive(Debug, PartialEq, Eq)]
pub struct StartupOptions {
    pub theme: Option<String>,
    pub toc_open: Option<bool>,
    pub auto_refresh: Option<bool>,
}

/// The mathematical value of [`StartupOptions`].
pub ghost struct StartupOptionsView {
    pub theme: Option<Seq<char>>,
    pub toc_open: Option<bool>,
    pub auto_refresh: Option<bool>,
}

impl StartupOptionsView {
    /// No option is present.
    pub open spec fn is_empty(self) -> bool {
        self.theme is None && self.toc_open is None && self.auto_refresh is None
    }

    /// The options of a launch that asked for nothing.
    pub open spec fn empty() -> StartupOptionsView {
        StartupOptionsView { theme: None, toc_open: None, auto_refresh: None }
    }

    /// A theme, where present, is one of the two known theme names.
    pub open spec fn well_formed(self) -> bool {
        self.theme matches Some(name) ==> name == dark_theme() || name == light_theme()
    }
}

impl View for StartupOptions {
    type V = StartupOptionsView;

    open spec fn view(&self) -> StartupOptionsView {
        StartupOptionsView {
            theme: text_of(self.theme),
            toc_open: self.toc_open,
            auto_refresh: self.auto_refresh,
        }
    }
}

impl DeepView for StartupOptions {
    type V = StartupOptionsView;

    open spec fn deep_view(&self) -> StartupOptionsView {
        self.view()
    }
}

impl Clone for StartupOptions {
    fn clone(&self) -> (copy: Self)
        ensures
            copy@ == self@,
    {
        let theme = match &self.theme {
            Some(name) => Some(name.clone()),
            None => None,
        };
        StartupOptions { theme, toc_open: self.toc_open, auto_refresh: self.auto_refresh }
    }
}

impl Default for StartupOptions {
    fn default() -> (options: Self)
        ensures
            options@ == StartupOptionsView::empty(),
    {
        StartupOptions { theme: None, toc_open: None, auto_refresh: None }
    }
}

impl StartupOptions {
    /// Whether no option is present.
    pub fn is_empty(&self) -> (empty: bool)
        ensures
            empty == self@.is_empty(),
    {
        self.theme.is_none() && self.toc_open.is_none() && self.auto_refresh.is_none()
    }
}

/// Reads a theme value. `Some` holds the theme's full name.
pub fn parse_theme_value(value: &str) -> (theme: Option<String>)
    ensures
        text_of(theme) == theme_named(value@),
{
    let word = to_lowercase(value);
    if same_text(word.as_str(), "dark") || same_text(word.as_str(), "vscode-dark") {
        Some("vscode-dark".to_string())
    } else if same_text(word.as_str(), "light") || same_text(word.as_str(), "vscode-light") {
        Some("vscode-light".to_string())
    } else {
        None
    }
}

/// Reads a toggle value.
pub fn parse_toggle_value(value: &str) -> (toggle: Option<bool>)
    ensures
        toggle == toggle_named(value@),
{
    let word = to_lowercase(value);
    if is_truthy(word.as_str()) {
        Some(true)
    } else if is_falsy(word.as_str()) {
        Some(false)
    } else {
        None
    }
}

/// Whether a lower-case word switches an option on.
fn is_truthy(word: &str) -> (truthy: bool)
    ensures
        truthy == is_truthy_word(word@),
{
    same_text(word, "1") || same_text(word, "true") || same_text(word, "yes")
        || same_text(word, "on") || same_text(word, "open") || same_text(word, "enabled")
}

/// Whether a lower-case word switches an option off.
fn is_falsy(word: &str) -> (falsy: bool)
    ensures
        falsy == is_falsy_word(word@),
{
    same_text(word, "0") || same_text(word, "false") || same_text(word, "no")
        || same_text(word, "off") || same_text(word, "closed") || same_text(word, "close")
        || same_text(word, "disabled")
}

/// What the system says of its own appearance.
#[derive(Clone, Copy, Debug, PartialEq, Eq)]
pub enum Appearance {
    Light,
    Dark,
    Unspecified,
}

/// The theme that goes with the system's appearance: the light theme where
/// the system is known to be light, and the dark theme in every other case,
/// an appearance that could not be found out included.
pub open spec fn system_theme(detected: Option<Appearance>) -> Seq<char> {
    if detected == Some(Appearance::Light) {
        light_theme()
    } else {
        dark_theme()
    }
}

/// The theme that goes with the system's appearance. `None` says that the
/// appearance could not be found out.
pub fn theme_get_system(detected: Option<Appearance>) -> (name: &'static str)
    ensures
        name@ == system_theme(detected),
{
    match detected {
        Some(Appearance::Light) => "vscode-light",
        _ => "vscode-dark",
    }
}

/// A value that names a theme or a toggle never looks like a flag.
pub proof fn lemma_values_are_no_flags(value: Seq<char>)
    ensures
        theme_named(value) is Some ==> !looks_like_flag(value),
        toggle_named(value) is Some ==> !looks_like_flag(value),
{
    reveal_strlit("dark");
    reveal_strlit("vscode-dark");
    reveal_strlit("light");
    reveal_strlit("vscode-light");
    reveal_strlit("1");
    reveal_strlit("true");
    reveal_strlit("yes");
    reveal_strlit("on");
    reveal_strlit("open");
    reveal_strlit("enabled");
    reveal_strlit("0");
    reveal_strlit("false");
    reveal_strlit("no");
    reveal_strlit("off");
    reveal_strlit("closed");
    reveal_strlit("close");
    reveal_strlit("disabled");
    if looks_like_flag(value) {
        assert(lowered(value)[0] == '-');
    }
}

} // verus!
