//! The argument parser: from a raw argument sequence to a launch request.
//!
//! A command line is read in two layers. [`option_reading`] says what one
//! argument means, given the argument after it; [`tokens`] walks the sequence
//! with that and yields one token per reading. Neither looks at the
//! filesystem. [`parsed_from`] then folds the tokens into the request; only
//! there do the probes of the positional arguments come in.

use crate::args_laws::{lemma_request_is_well_formed, lemma_target_stays};
use crate::options::{
    dark_theme, lemma_values_are_no_flags, light_theme, parse_theme_value, parse_toggle_value,
    theme_named, toggle_named, StartupOptions, StartupOptionsView,
};
use crate::target::{
    classified, classify, is_markdown, is_markdown_path, EntryKind, LaunchTarget,
    LaunchTargetView, ResolvedPath, ResolvedPathView,
};
use crate::text::{
    borrowed_text, join3, join4, looks_like_flag, same_text, starts_with_dash, strip_prefix,
    text_of, without_prefix,
};
use vstd::prelude::*;

verus! {

/// Something the parser wants the shell to say: a printout that ends the
/// invocation, or a warning about a value it ignored.
#[derive(Debug, PartialEq, Eq)]
pub enum ParseNotice {
    /// `-h` or `--help`: print the usage text.
    Help,
    /// `-V` or `--version`: print the version.
    Version,
    /// `--theme` stood without a value.
    ThemeValueMissing,
    /// `--theme` had a value that names no theme.
    ThemeValueUnsupported(String),
    /// `--toc=` had a value that is no toggle word.
    TocValueUnsupported(String),
    /// `--watch=` or `--auto-refresh=` had a value that is no toggle word.
    WatchValueUnsupported(String),
}

/// The mathematical value of [`ParseNotice`].
pub ghost enum ParseNoticeView {
    Help,
    Version,
    ThemeValueMissing,
    ThemeValueUnsupported(Seq<char>),
    TocValueUnsupported(Seq<char>),
    WatchValueUnsupported(Seq<char>),
}

impl ParseNoticeView {
    /// A printout ends the invocation once it is made.
    pub open spec fn is_printout(self) -> bool {
        self is Help || self is Version
    }

    /// The text of a warning; a printout has none.
    pub open spec fn warning(self) -> Option<Seq<char>> {
        match self {
            ParseNoticeView::Help => None,
            ParseNoticeView::Version => None,
            ParseNoticeView::ThemeValueMissing => Some("Ignoring --theme without a value."@),
            ParseNoticeView::ThemeValueUnsupported(value) => Some(
                "Ignoring unsupported --theme value '"@ + value + "'. Expected dark or light."@,
            ),
            ParseNoticeView::TocValueUnsupported(value) => Some(
                "Ignoring unsupported --toc value '"@ + value
                    + "'. Expected open/closed/on/off."@,
            ),
            ParseNoticeView::WatchValueUnsupported(value) => Some(
                "Ignoring unsupported watch value '"@ + value
                    + "'. Expected on/off/true/false."@,
            ),
        }
    }
}

/// The usage text, after the line that names the program and its version.
pub open spec fn usage() -> Seq<char> {
    "\n\nUsage:\n  mudkip [OPTIONS] [FILE_OR_FOLDER]\n\nOptions:\n  --theme <dark|light>      Set startup theme.\n  --dark                    Alias for --theme dark.\n  --light                   Alias for --theme light.\n  --toc[=<open|closed>]     Open TOC drawer on launch (default when no value: open).\n  --toc-open                Open TOC drawer on launch.\n  --toc-closed              Close TOC drawer on launch.\n  --watch[=<on|off>]        Enable auto-refresh watch on launch (default when no value: on).\n  --no-watch                Disable auto-refresh watch on launch.\n  -h, --help                Show this help and exit.\n  -V, --version             Show version and exit."@
}

impl ParseNoticeView {
    /// The text of a printout, for a program of this name and version; a
    /// warning has none.
    pub open spec fn printout(self, name: Seq<char>, version: Seq<char>) -> Option<Seq<char>> {
        match self {
            ParseNoticeView::Help => Some(name + " "@ + version + usage()),
            ParseNoticeView::Version => Some(name + " "@ + version),
            _ => None,
        }
    }
}

impl View for ParseNotice {
    type V = ParseNoticeView;

    open spec fn view(&self) -> ParseNoticeView {
        match self {
            ParseNotice::Help => ParseNoticeView::Help,
            ParseNotice::Version => ParseNoticeView::Version,
            ParseNotice::ThemeValueMissing => ParseNoticeView::ThemeValueMissing,
            ParseNotice::ThemeValueUnsupported(value) => ParseNoticeView::ThemeValueUnsupported(
                value@,
            ),
            ParseNotice::TocValueUnsupported(value) => ParseNoticeView::TocValueUnsupported(value@),
            ParseNotice::WatchValueUnsupported(value) => ParseNoticeView::WatchValueUnsupported(
                value@,
            ),
        }
    }
}

impl DeepView for ParseNotice {
    type V = ParseNoticeView;

    open spec fn deep_view(&self) -> ParseNoticeView {
        self.view()
    }
}

impl ParseNotice {
    /// Whether this notice is a printout that ends the invocation.
    pub fn is_printout(&self) -> (printout: bool)
        ensures
            printout == self@.is_printout(),
    {
        match self {
            ParseNotice::Help => true,
            ParseNotice::Version => true,
            _ => false,
        }
    }

    /// The text to print for this notice, for a program of this name and
    /// version; `None` for a warning.
    pub fn printout(&self, name: &str, version: &str) -> (text: Option<String>)
        ensures
            text_of(text) == self@.printout(name@, version@),
    {
        match self {
            ParseNotice::Help => Some(
                join4(
                    name,
                    " ",
                    version,
                    "\n\nUsage:\n  mudkip [OPTIONS] [FILE_OR_FOLDER]\n\nOptions:\n  --theme <dark|light>      Set startup theme.\n  --dark                    Alias for --theme dark.\n  --light                   Alias for --theme light.\n  --toc[=<open|closed>]     Open TOC drawer on launch (default when no value: open).\n  --toc-open                Open TOC drawer on launch.\n  --toc-closed              Close TOC drawer on launch.\n  --watch[=<on|off>]        Enable auto-refresh watch on launch (default when no value: on).\n  --no-watch                Disable auto-refresh watch on launch.\n  -h, --help                Show this help and exit.\n  -V, --version             Show version and exit.",
                ),
            ),
            ParseNotice::Version => Some(join3(name, " ", version)),
            _ => None,
        }
    }

    /// The warning to log for this notice; `None` for a printout.
    pub fn warning(&self) -> (text: Option<String>)
        ensures
            text_of(text) == self@.warning(),
    {
        match self {
            ParseNotice::Help => None,
            ParseNotice::Version => None,
            ParseNotice::ThemeValueMissing => Some("Ignoring --theme without a value.".to_string()),
            ParseNotice::ThemeValueUnsupported(value) => Some(
                join3(
                    "Ignoring unsupported --theme value '",
                    value.as_str(),
                    "'. Expected dark or light.",
                ),
            ),
            ParseNotice::TocValueUnsupported(value) => Some(
                join3(
                    "Ignoring unsupported --toc value '",
                    value.as_str(),
                    "'. Expected open/closed/on/off.",
                ),
            ),
            ParseNotice::WatchValueUnsupported(value) => Some(
                join3(
                    "Ignoring unsupported watch value '",
                    value.as_str(),
                    "'. Expected on/off/true/false.",
                ),
            ),
        }
    }
}

/// What one argument means.
#[derive(Debug, PartialEq, Eq)]
pub enum ArgMeaning {
    /// The bare `--`: every later argument is positional.
    EndOfOptions,
    /// The theme to start with, by its full name.
    Theme(String),
    /// Whether the table of contents starts open.
    Toc(bool),
    /// Whether auto-refresh starts switched on.
    Watch(bool),
    /// Something for the shell to say.
    Notice(ParseNotice),
    /// A flag that the parser does not know; it is skipped.
    UnknownFlag,
    /// A candidate for the launch target.
    Positional,
}

/// The mathematical value of [`ArgMeaning`].
pub ghost enum ArgMeaningView {
    EndOfOptions,
    Theme(Seq<char>),
    Toc(bool),
    Watch(bool),
    Notice(ParseNoticeView),
    UnknownFlag,
    Positional,
}

impl View for ArgMeaning {
    type V = ArgMeaningView;

    open spec fn view(&self) -> ArgMeaningView {
        match self {
            ArgMeaning::EndOfOptions => ArgMeaningView::EndOfOptions,
            ArgMeaning::Theme(name) => ArgMeaningView::Theme(name@),
            ArgMeaning::Toc(open) => ArgMeaningView::Toc(*open),
            ArgMeaning::Watch(on) => ArgMeaningView::Watch(*on),
            ArgMeaning::Notice(notice) => ArgMeaningView::Notice(notice@),
            ArgMeaning::UnknownFlag => ArgMeaningView::UnknownFlag,
            ArgMeaning::Positional => ArgMeaningView::Positional,
        }
    }
}

/// How one argument was read: what it means, and whether the argument after
/// it was used up as its value.
#[derive(Debug, PartialEq, Eq)]
pub struct Reading {
    pub meaning: ArgMeaning,
    pub takes_lookahead: bool,
}

/// The mathematical value of [`Reading`].
pub ghost struct ReadingView {
    pub meaning: ArgMeaningView,
    pub takes_lookahead: bool,
}

impl ReadingView {
    /// A reading that uses one argument.
    pub open spec fn single(meaning: ArgMeaningView) -> ReadingView {
        ReadingView { meaning, takes_lookahead: false }
    }

    /// A reading that uses the argument and the one after it.
    pub open spec fn double(meaning: ArgMeaningView) -> ReadingView {
        ReadingView { meaning, takes_lookahead: true }
    }

    /// How many arguments the reading uses.
    pub open spec fn width(self) -> int {
        if self.takes_lookahead {
            2
        } else {
            1
        }
    }
}

impl View for Reading {
    type V = ReadingView;

    open spec fn view(&self) -> ReadingView {
        ReadingView { meaning: self.meaning@, takes_lookahead: self.takes_lookahead }
    }
}

/// What a theme value sets: the theme it names, or a warning.
pub open spec fn theme_setting(value: Seq<char>) -> ArgMeaningView {
    match theme_named(value) {
        Some(name) => ArgMeaningView::Theme(name),
        None => ArgMeaningView::Notice(ParseNoticeView::ThemeValueUnsupported(value)),
    }
}

/// What a value attached to `--toc=` sets.
pub open spec fn toc_setting(value: Seq<char>) -> ArgMeaningView {
    match toggle_named(value) {
        Some(open) => ArgMeaningView::Toc(open),
        None => ArgMeaningView::Notice(ParseNoticeView::TocValueUnsupported(value)),
    }
}

/// What a value attached to `--watch=` or `--auto-refresh=` sets.
pub open spec fn watch_setting(value: Seq<char>) -> ArgMeaningView {
    match toggle_named(value) {
        Some(on) => ArgMeaningView::Watch(on),
        None => ArgMeaningView::Notice(ParseNoticeView::WatchValueUnsupported(value)),
    }
}

/// The toggle that the argument after a bare `--toc` or `--watch` spells, if
/// it spells one.
pub open spec fn lookahead_toggle(lookahead: Option<Seq<char>>) -> Option<bool> {
    match lookahead {
        Some(value) => toggle_named(value),
        None => None,
    }
}

/// The value that `--watch=` or `--auto-refresh=` carries in `arg`.
pub open spec fn watch_value(arg: Seq<char>) -> Option<Seq<char>> {
    match without_prefix(arg, "--watch="@) {
        Some(value) => Some(value),
        None => without_prefix(arg, "--auto-refresh="@),
    }
}

/// What `arg` means where options are still read, given the argument after
/// it.
///
/// The exact flags come first, then the flags that take their value from the
/// next argument, then the flags that carry their value after `=`. Whatever
/// else starts with a dash is an unknown flag, and the rest is positional.
pub open spec fn option_reading(arg: Seq<char>, lookahead: Option<Seq<char>>) -> ReadingView {
    if arg == "--"@ {
        ReadingView::single(ArgMeaningView::EndOfOptions)
    } else if arg == "-h"@ || arg == "--help"@ {
        ReadingView::single(ArgMeaningView::Notice(ParseNoticeView::Help))
    } else if arg == "-V"@ || arg == "--version"@ {
        ReadingView::single(ArgMeaningView::Notice(ParseNoticeView::Version))
    } else if arg == "--dark"@ {
        ReadingView::single(ArgMeaningView::Theme(dark_theme()))
    } else if arg == "--light"@ {
        ReadingView::single(ArgMeaningView::Theme(light_theme()))
    } else if arg == "--toc-open"@ {
        ReadingView::single(ArgMeaningView::Toc(true))
    } else if arg == "--toc-closed"@ || arg == "--toc-close"@ || arg == "--no-toc"@ {
        ReadingView::single(ArgMeaningView::Toc(false))
    } else if arg == "--no-watch"@ || arg == "--watch-off"@ || arg == "--no-auto-refresh"@ {
        ReadingView::single(ArgMeaningView::Watch(false))
    } else if arg == "--theme"@ {
        match lookahead {
            Some(value) => if looks_like_flag(value) {
                ReadingView::single(ArgMeaningView::Notice(ParseNoticeView::ThemeValueMissing))
            } else {
                ReadingView::double(theme_setting(value))
            },
            None => ReadingView::single(ArgMeaningView::Notice(ParseNoticeView::ThemeValueMissing)),
        }
    } else if arg == "--toc"@ {
        match lookahead_toggle(lookahead) {
            Some(open) => ReadingView::double(ArgMeaningView::Toc(open)),
            None => ReadingView::single(ArgMeaningView::Toc(true)),
        }
    } else if arg == "--watch"@ || arg == "--auto-refresh"@ {
        match lookahead_toggle(lookahead) {
            Some(on) => ReadingView::double(ArgMeaningView::Watch(on)),
            None => ReadingView::single(ArgMeaningView::Watch(true)),
        }
    } else if without_prefix(arg, "--theme="@) is Some {
        ReadingView::single(theme_setting(without_prefix(arg, "--theme="@)->0))
    } else if without_prefix(arg, "--toc="@) is Some {
        ReadingView::single(toc_setting(without_prefix(arg, "--toc="@)->0))
    } else if watch_value(arg) is Some {
        ReadingView::single(watch_setting(watch_value(arg)->0))
    } else if looks_like_flag(arg) {
        ReadingView::single(ArgMeaningView::UnknownFlag)
    } else {
        ReadingView::single(ArgMeaningView::Positional)
    }
}

fn single(meaning: ArgMeaning) -> (reading: Reading)
    ensures
        reading@ == ReadingView::single(meaning@),
{
    Reading { meaning, takes_lookahead: false }
}

fn double(meaning: ArgMeaning) -> (reading: Reading)
    ensures
        reading@ == ReadingView::double(meaning@),
{
    Reading { meaning, takes_lookahead: true }
}

fn read_theme_value(value: &str) -> (meaning: ArgMeaning)
    ensures
        meaning@ == theme_setting(value@),
{
    match parse_theme_value(value) {
        Some(name) => ArgMeaning::Theme(name),
        None => ArgMeaning::Notice(ParseNotice::ThemeValueUnsupported(value.to_string())),
    }
}

fn read_toc_value(value: &str) -> (meaning: ArgMeaning)
    ensures
        meaning@ == toc_setting(value@),
{
    match parse_toggle_value(value) {
        Some(open) => ArgMeaning::Toc(open),
        None => ArgMeaning::Notice(ParseNotice::TocValueUnsupported(value.to_string())),
    }
}

fn read_watch_value(value: &str) -> (meaning: ArgMeaning)
    ensures
        meaning@ == watch_setting(value@),
{
    match parse_toggle_value(value) {
        Some(on) => ArgMeaning::Watch(on),
        None => ArgMeaning::Notice(ParseNotice::WatchValueUnsupported(value.to_string())),
    }
}

fn read_lookahead_toggle(lookahead: Option<&str>) -> (toggle: Option<bool>)
    ensures
        toggle == lookahead_toggle(borrowed_text(lookahead)),
{
    match lookahead {
        Some(value) => parse_toggle_value(value),
        None => None,
    }
}

fn read_watch_prefix<'a>(arg: &'a str) -> (value: Option<&'a str>)
    ensures
        borrowed_text(value) == watch_value(arg@),
{
    match strip_prefix(arg, "--watch=") {
        Some(value) => Some(value),
        None => strip_prefix(arg, "--auto-refresh="),
    }
}

/// Reads one argument where options are still read. `lookahead` is the
/// argument after it, if there is one.
pub fn read_option(arg: &str, lookahead: Option<&str>) -> (reading: Reading)
    ensures
        reading@ == option_reading(arg@, borrowed_text(lookahead)),
        reading.takes_lookahead ==> (lookahead matches Some(value) && !looks_like_flag(value@)),
{
    proof {
        match lookahead {
            Some(value) => lemma_values_are_no_flags(value@),
            None => {},
        }
    }
    if same_text(arg, "--") {
        single(ArgMeaning::EndOfOptions)
    } else if same_text(arg, "-h") || same_text(arg, "--help") {
        single(ArgMeaning::Notice(ParseNotice::Help))
    } else if same_text(arg, "-V") || same_text(arg, "--version") {
        single(ArgMeaning::Notice(ParseNotice::Version))
    } else if same_text(arg, "--dark") {
        single(ArgMeaning::Theme("vscode-dark".to_string()))
    } else if same_text(arg, "--light") {
        single(ArgMeaning::Theme("vscode-light".to_string()))
    } else if same_text(arg, "--toc-open") {
        single(ArgMeaning::Toc(true))
    } else if same_text(arg, "--toc-closed") || same_text(arg, "--toc-close") || same_text(
        arg,
        "--no-toc",
    ) {
        single(ArgMeaning::Toc(false))
    } else if same_text(arg, "--no-watch") || same_text(arg, "--watch-off") || same_text(
        arg,
        "--no-auto-refresh",
    ) {
        single(ArgMeaning::Watch(false))
    } else if same_text(arg, "--theme") {
        match lookahead {
            Some(value) => {
                if starts_with_dash(value) {
                    single(ArgMeaning::Notice(ParseNotice::ThemeValueMissing))
                } else {
                    double(read_theme_value(value))
                }
            },
            None => single(ArgMeaning::Notice(ParseNotice::ThemeValueMissing)),
        }
    } else if same_text(arg, "--toc") {
        match read_lookahead_toggle(lookahead) {
            Some(open) => double(ArgMeaning::Toc(open)),
            None => single(ArgMeaning::Toc(true)),
        }
    } else if same_text(arg, "--watch") || same_text(arg, "--auto-refresh") {
        match read_lookahead_toggle(lookahead) {
            Some(on) => double(ArgMeaning::Watch(on)),
            None => single(ArgMeaning::Watch(true)),
        }
    } else if let Some(value) = strip_prefix(arg, "--theme=") {
        single(read_theme_value(value))
    } else if let Some(value) = strip_prefix(arg, "--toc=") {
        single(read_toc_value(value))
    } else if let Some(value) = read_watch_prefix(arg) {
        single(read_watch_value(value))
    } else if starts_with_dash(arg) {
        single(ArgMeaning::UnknownFlag)
    } else {
        single(ArgMeaning::Positional)
    }
}

/// One reading of the command line: where it stands and what it means.
pub ghost struct Token {
    pub index: int,
    pub meaning: ArgMeaningView,
}

/// The argument after position `index`, if there is one.
pub open spec fn lookahead_at(args: Seq<Seq<char>>, index: int) -> Option<Seq<char>> {
    if 0 <= index && index + 1 < args.len() {
        Some(args[index + 1])
    } else {
        None
    }
}

/// How the argument at `index` is read: as an option while options are still
/// read, as a positional argument after the bare `--`.
pub open spec fn reading_at(args: Seq<Seq<char>>, index: int, positional_only: bool) -> ReadingView {
    if positional_only {
        ReadingView::single(ArgMeaningView::Positional)
    } else {
        option_reading(args[index], lookahead_at(args, index))
    }
}

/// The tokens of the arguments from `start` on.
pub open spec fn tokens_from(args: Seq<Seq<char>>, start: int, positional_only: bool) -> Seq<Token>
    decreases args.len() - start,
{
    if start < 0 || start >= args.len() {
        Seq::empty()
    } else {
        let reading = reading_at(args, start, positional_only);
        seq![Token { index: start, meaning: reading.meaning }] + tokens_from(
            args,
            start + reading.width(),
            positional_only || reading.meaning is EndOfOptions,
        )
    }
}

/// The tokens of a command line, left to right.
pub open spec fn tokens(args: Seq<Seq<char>>) -> Seq<Token> {
    tokens_from(args, 0, false)
}

/// What the probes say of the argument at `index`. An argument without a
/// probe counts as unresolved.
pub open spec fn probe_at(probes: Seq<Option<ResolvedPathView>>, index: int) -> Option<
    ResolvedPathView,
> {
    if 0 <= index < probes.len() {
        probes[index]
    } else {
        None
    }
}

/// A parsed launch request.
#[derive(Debug)]
pub struct ParsedLaunchArgs {
    /// The file or folder to open, if the arguments name one.
    pub launch_target: Option<LaunchTarget>,
    /// The options the arguments set.
    pub startup_options: StartupOptions,
    /// Whether the process is to stop once the printouts are made.
    pub exit_after_print: bool,
    /// The printouts and warnings, in the order in which they came up.
    pub notices: Vec<ParseNotice>,
}

/// The mathematical value of [`ParsedLaunchArgs`].
pub ghost struct ParsedLaunchArgsView {
    pub launch_target: Option<LaunchTargetView>,
    pub startup_options: StartupOptionsView,
    pub exit_after_print: bool,
    pub notices: Seq<ParseNoticeView>,
}

impl ParsedLaunchArgsView {
    /// The request of an empty command line.
    pub open spec fn empty() -> ParsedLaunchArgsView {
        ParsedLaunchArgsView {
            launch_target: None,
            startup_options: StartupOptionsView::empty(),
            exit_after_print: false,
            notices: Seq::empty(),
        }
    }

    /// The request after one more token. A later setting of an option
    /// replaces an earlier one; the launch target, once found, stays.
    pub open spec fn applied(
        self,
        token: Token,
        probes: Seq<Option<ResolvedPathView>>,
    ) -> ParsedLaunchArgsView {
        match token.meaning {
            ArgMeaningView::EndOfOptions => self,
            ArgMeaningView::Theme(name) => ParsedLaunchArgsView {
                startup_options: StartupOptionsView { theme: Some(name), ..self.startup_options },
                ..self
            },
            ArgMeaningView::Toc(open) => ParsedLaunchArgsView {
                startup_options: StartupOptionsView {
                    toc_open: Some(open),
                    ..self.startup_options
                },
                ..self
            },
            ArgMeaningView::Watch(on) => ParsedLaunchArgsView {
                startup_options: StartupOptionsView {
                    auto_refresh: Some(on),
                    ..self.startup_options
                },
                ..self
            },
            ArgMeaningView::Notice(notice) => ParsedLaunchArgsView {
                exit_after_print: self.exit_after_print || notice.is_printout(),
                notices: self.notices.push(notice),
                ..self
            },
            ArgMeaningView::UnknownFlag => self,
            ArgMeaningView::Positional => if self.launch_target is None {
                ParsedLaunchArgsView {
                    launch_target: classified(probe_at(probes, token.index)),
                    ..self
                }
            } else {
                self
            },
        }
    }
}

impl View for ParsedLaunchArgs {
    type V = ParsedLaunchArgsView;

    open spec fn view(&self) -> ParsedLaunchArgsView {
        ParsedLaunchArgsView {
            launch_target: self.launch_target.deep_view(),
            startup_options: self.startup_options@,
            exit_after_print: self.exit_after_print,
            notices: self.notices.deep_view(),
        }
    }
}

impl Default for ParsedLaunchArgs {
    fn default() -> (parsed: Self)
        ensures
            parsed@ == ParsedLaunchArgsView::empty(),
    {
        let parsed = ParsedLaunchArgs {
            launch_target: None,
            startup_options: StartupOptions::default(),
            exit_after_print: false,
            notices: Vec::new(),
        };
        assert(parsed.notices.deep_view() =~= Seq::empty());
        parsed
    }
}

/// The request that a run of tokens adds up to.
pub open spec fn parsed_from(
    tokens: Seq<Token>,
    probes: Seq<Option<ResolvedPathView>>,
) -> ParsedLaunchArgsView
    decreases tokens.len(),
{
    if tokens.len() == 0 {
        ParsedLaunchArgsView::empty()
    } else {
        parsed_from(tokens.drop_last(), probes).applied(tokens.last(), probes)
    }
}

/// What a command line asks for, given what probing each argument as a path
/// found.
pub open spec fn parsed_args(
    args: Seq<Seq<char>>,
    probes: Seq<Option<ResolvedPathView>>,
) -> ParsedLaunchArgsView {
    parsed_from(tokens(args), probes)
}

/// Reads the argument at `index`: as an option while options are still read,
/// as a positional argument after the bare `--`.
fn read_at(args: &Vec<String>, index: usize, positional_only: bool) -> (reading: Reading)
    requires
        index < args.len(),
    ensures
        reading@ == reading_at(args.deep_view(), index as int, positional_only),
        reading.takes_lookahead ==> index + 1 < args.len(),
{
    let arg = args[index].as_str();
    assert(args.deep_view()[index as int] == arg@);
    if positional_only {
        single(ArgMeaning::Positional)
    } else if index + 1 < args.len() {
        assert(args.deep_view()[index + 1] == args[index + 1]@);
        read_option(arg, Some(args[index + 1].as_str()))
    } else {
        read_option(arg, None)
    }
}

/// Parses a command line.
///
/// `probes` holds, for each argument, what resolving it as a path found:
/// `probes[i]` belongs to `args[i]`, and an argument without a probe counts
/// as unresolved. Only the probes of positional arguments are looked at, and
/// of those only the ones up to the first that denotes a target;
/// [`next_probe`] says, one after the other, which arguments these are.
pub fn parse_cli_args(args: &Vec<String>, probes: &Vec<Option<ResolvedPath>>) -> (parsed:
    ParsedLaunchArgs)
    ensures
        parsed@ == parsed_args(args.deep_view(), probes.deep_view()),
        parsed@.startup_options.well_formed(),
        parsed@.launch_target matches Some(target) ==> target.well_formed(),
{
    proof {
        lemma_request_is_well_formed(args.deep_view(), probes.deep_view());
    }
    let mut parsed = ParsedLaunchArgs::default();
    let mut index: usize = 0;
    let mut positional_only = false;
    let ghost all = args.deep_view();
    let ghost found = probes.deep_view();
    let ghost mut done: Seq<Token> = Seq::empty();
    while index < args.len()
        invariant
            index <= args.len(),
            all == args.deep_view(),
            found == probes.deep_view(),
            tokens(all) == done + tokens_from(all, index as int, positional_only),
            parsed@ == parsed_from(done, found),
        decreases args.len() - index,
    {
        let ghost before = parsed@;
        let reading = read_at(args, index, positional_only);
        let ghost token = Token { index: index as int, meaning: reading.meaning@ };
        let takes_lookahead = reading.takes_lookahead;
        match reading.meaning {
            ArgMeaning::EndOfOptions => {
                positional_only = true;
            },
            ArgMeaning::Theme(name) => {
                parsed.startup_options.theme = Some(name);
            },
            ArgMeaning::Toc(open) => {
                parsed.startup_options.toc_open = Some(open);
            },
            ArgMeaning::Watch(on) => {
                parsed.startup_options.auto_refresh = Some(on);
            },
            ArgMeaning::Notice(notice) => {
                if notice.is_printout() {
                    parsed.exit_after_print = true;
                }
                parsed.notices.push(notice);
                assert(parsed.notices.deep_view() =~= before.notices.push(notice@));
            },
            ArgMeaning::UnknownFlag => {},
            ArgMeaning::Positional => {
                if parsed.launch_target.is_none() {
                    if index < probes.len() {
                        assert(found[index as int] == probes[index as int].deep_view());
                        parsed.launch_target = classify(&probes[index]);
                    }
                }
            },
        }
        proof {
            assert(parsed@ == before.applied(token, found));
            assert(done.push(token).drop_last() =~= done);
            done = done.push(token);
        }
        if takes_lookahead {
            index = index + 2;
        } else {
            index = index + 1;
        }
    }
    assert(done + Seq::<Token>::empty() =~= done);
    parsed
}

/// The positions in the command line of the tokens that are positional, in
/// order. These are the arguments whose probes the parser may look at.
pub open spec fn positional_indices(tokens: Seq<Token>) -> Seq<int>
    decreases tokens.len(),
{
    if tokens.len() == 0 {
        Seq::empty()
    } else {
        let earlier = positional_indices(tokens.drop_last());
        if tokens.last().meaning is Positional {
            earlier.push(tokens.last().index)
        } else {
            earlier
        }
    }
}

/// The view of a run of positions.
pub open spec fn positions_of(indices: Seq<usize>) -> Seq<int> {
    Seq::new(indices.len(), |i: int| indices[i] as int)
}

/// Finds the positional arguments of a command line: the positions, in
/// order, of the arguments that are worth probing as paths. Every other
/// argument may go unprobed.
pub fn positional_arguments(args: &Vec<String>) -> (indices: Vec<usize>)
    ensures
        positions_of(indices@) == positional_indices(tokens(args.deep_view())),
        forall|i: int| 0 <= i < indices@.len() ==> (#[trigger] indices@[i]) < args.len(),
{
    let mut indices: Vec<usize> = Vec::new();
    let mut index: usize = 0;
    let mut positional_only = false;
    let ghost all = args.deep_view();
    let ghost mut done: Seq<Token> = Seq::empty();
    assert(positions_of(indices@) =~= Seq::empty());
    while index < args.len()
        invariant
            index <= args.len(),
            all == args.deep_view(),
            tokens(all) == done + tokens_from(all, index as int, positional_only),
            positions_of(indices@) == positional_indices(done),
            forall|i: int| 0 <= i < indices@.len() ==> (#[trigger] indices@[i]) < args.len(),
        decreases args.len() - index,
    {
        let ghost before = positions_of(indices@);
        let reading = read_at(args, index, positional_only);
        let ghost token = Token { index: index as int, meaning: reading.meaning@ };
        match reading.meaning {
            ArgMeaning::EndOfOptions => {
                positional_only = true;
            },
            ArgMeaning::Positional => {
                indices.push(index);
                assert(positions_of(indices@) =~= before.push(index as int));
            },
            _ => {},
        }
        proof {
            assert(done.push(token).drop_last() =~= done);
            done = done.push(token);
        }
        if reading.takes_lookahead {
            index = index + 2;
        } else {
            index = index + 1;
        }
    }
    assert(done + Seq::<Token>::empty() =~= done);
    indices
}

/// The target that a run of positions gives: what the first of them whose
/// probe denotes a target denotes.
pub open spec fn target_among(
    positions: Seq<int>,
    probes: Seq<Option<ResolvedPathView>>,
) -> Option<LaunchTargetView>
    decreases positions.len(),
{
    if positions.len() == 0 {
        None
    } else {
        match target_among(positions.drop_last(), probes) {
            Some(target) => Some(target),
            None => classified(probe_at(probes, positions.last())),
        }
    }
}

/// The argument to probe next, once the first `probed` of the positional
/// arguments at `positions` have been probed: the next of them, as long as
/// none of those probed denotes a target. `None` says that probing is done.
pub open spec fn next_to_probe(
    positions: Seq<int>,
    probes: Seq<Option<ResolvedPathView>>,
    probed: int,
) -> Option<int> {
    if 0 <= probed < positions.len() && target_among(positions.take(probed), probes) is None {
        Some(positions[probed])
    } else {
        None
    }
}

/// Says which argument to probe next. `probes` holds what has been found so
/// far, and `probed` says how many of the positional arguments, first to
/// last, have been probed. Probing in this order until the answer is `None`
/// resolves as little as the command line needs: the positional arguments up
/// to the first that denotes a target, and nothing else.
pub fn next_probe(args: &Vec<String>, probes: &Vec<Option<ResolvedPath>>, probed: usize) -> (next:
    Option<usize>)
    ensures
        match next {
            Some(index) => index < args.len() && next_to_probe(
                positional_indices(tokens(args.deep_view())),
                probes.deep_view(),
                probed as int,
            ) == Some(index as int),
            None => next_to_probe(
                positional_indices(tokens(args.deep_view())),
                probes.deep_view(),
                probed as int,
            ) is None,
        },
{
    let indices = positional_arguments(args);
    let ghost positions = positions_of(indices@);
    let ghost found = probes.deep_view();
    if probed >= indices.len() {
        return None;
    }
    let mut seen: usize = 0;
    assert(positions.take(0) =~= Seq::empty());
    while seen < probed
        invariant
            seen <= probed < indices.len(),
            positions == positions_of(indices@),
            positions == positional_indices(tokens(args.deep_view())),
            found == probes.deep_view(),
            target_among(positions.take(seen as int), found) is None,
        decreases probed - seen,
    {
        let index = indices[seen];
        let ghost longer = positions.take(seen + 1);
        assert(longer.drop_last() =~= positions.take(seen as int));
        assert(longer.last() == index as int);
        if index < probes.len() {
            assert(found[index as int] == probes[index as int].deep_view());
            if classify(&probes[index]).is_some() {
                proof {
                    assert(target_among(longer, found) is Some);
                    assert(positions.take(probed as int).take(seen + 1) =~= longer);
                    lemma_target_stays(positions.take(probed as int), found, seen + 1);
                }
                return None;
            }
        }
        seen = seen + 1;
    }
    Some(indices[probed])
}

/// Whether an argument names a markdown file to start with: it does not look
/// like a flag, it carries an extension of the allow-list as it stands, and
/// its path resolved to a regular file.
pub open spec fn names_markdown_file(arg: Seq<char>, probe: Option<ResolvedPathView>) -> bool {
    &&& !looks_like_flag(arg)
    &&& is_markdown(arg)
    &&& probe matches Some(found)
    &&& found.kind == EntryKind::File
}

/// The canonical path of the first argument from `start` on that names a
/// markdown file.
pub open spec fn first_markdown_path(
    args: Seq<Seq<char>>,
    probes: Seq<Option<ResolvedPathView>>,
    start: int,
) -> Option<Seq<char>>
    decreases args.len() - start,
{
    if start < 0 || start >= args.len() {
        None
    } else if names_markdown_file(args[start], probe_at(probes, start)) {
        Some(probe_at(probes, start)->0.canonical)
    } else {
        first_markdown_path(args, probes, start + 1)
    }
}

/// The markdown file that a plain command line starts with: the canonical
/// path of the first argument that names one. No option is read; an
/// argument that looks like a flag is passed over. `probes` holds, for each
/// argument, what resolving it as a path found.
pub fn get_launch_markdown_path(args: &Vec<String>, probes: &Vec<Option<ResolvedPath>>) -> (path:
    Option<String>)
    ensures
        text_of(path) == first_markdown_path(args.deep_view(), probes.deep_view(), 0),
{
    let ghost all = args.deep_view();
    let ghost found = probes.deep_view();
    let mut index: usize = 0;
    while index < args.len()
        invariant
            index <= args.len(),
            all == args.deep_view(),
            found == probes.deep_view(),
            first_markdown_path(all, found, 0) == first_markdown_path(all, found, index as int),
        decreases args.len() - index,
    {
        let arg = args[index].as_str();
        assert(all[index as int] == arg@);
        if !starts_with_dash(arg) && is_markdown_path(arg) && index < probes.len() {
            assert(found[index as int] == probes[index as int].deep_view());
            match &probes[index] {
                Some(resolved) => {
                    match resolved.kind {
                        EntryKind::File => {
                            return Some(resolved.canonical.clone());
                        },
                        _ => {},
                    }
                },
                None => {},
            }
        }
        index = index + 1;
    }
    None
}

} // verus!
