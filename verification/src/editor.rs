//! Opening a file in the external editor: which commands to try, in which
//! order, and what to say when none of them starts.
//!
//! Starting a process is the shell's work. The library says what to start.

use crate::text::join3;
use vstd::prelude::*;
use vstd::string::StringExecFns;

verus! {

/// The character that writes one decimal digit.
pub open spec fn digit_char(digit: nat) -> char {
    if digit == 0 {
        '0'
    } else if digit == 1 {
        '1'
    } else if digit == 2 {
        '2'
    } else if digit == 3 {
        '3'
    } else if digit == 4 {
        '4'
    } else if digit == 5 {
        '5'
    } else if digit == 6 {
        '6'
    } else if digit == 7 {
        '7'
    } else if digit == 8 {
        '8'
    } else {
        '9'
    }
}

/// A number written in decimal, without leading zeros.
pub open spec fn decimal(number: nat) -> Seq<char>
    decreases number,
{
    if number < 10 {
        seq![digit_char(number)]
    } else {
        decimal(number / 10).push(digit_char(number % 10))
    }
}

/// The line to open the editor at: lines count from one, and a request for
/// line zero means the first line.
pub open spec fn editor_line(line: nat) -> nat {
    if line == 0 {
        1
    } else {
        line
    }
}

/// What the editor is told to go to: the path, a colon, and the line.
pub open spec fn goto_target(path: Seq<char>, line: nat) -> Seq<char> {
    path + ":"@ + decimal(editor_line(line))
}

/// The text of one decimal digit.
fn digit_text(digit: u32) -> (text: &'static str)
    requires
        digit < 10,
    ensures
        text@ == seq![digit_char(digit as nat)],
{
    proof {
        reveal_strlit("0");
        reveal_strlit("1");
        reveal_strlit("2");
        reveal_strlit("3");
        reveal_strlit("4");
        reveal_strlit("5");
        reveal_strlit("6");
        reveal_strlit("7");
        reveal_strlit("8");
        reveal_strlit("9");
    }
    let text = if digit == 0 {
        "0"
    } else if digit == 1 {
        "1"
    } else if digit == 2 {
        "2"
    } else if digit == 3 {
        "3"
    } else if digit == 4 {
        "4"
    } else if digit == 5 {
        "5"
    } else if digit == 6 {
        "6"
    } else if digit == 7 {
        "7"
    } else if digit == 8 {
        "8"
    } else {
        "9"
    };
    assert(text@ =~= seq![digit_char(digit as nat)]);
    text
}

/// Writes a number in decimal.
pub fn decimal_text(number: u32) -> (text: String)
    ensures
        text@ == decimal(number as nat),
    decreases number,
{
    if number < 10 {
        String::from_str(digit_text(number))
    } else {
        let text = decimal_text(number / 10).concat(digit_text(number % 10));
        assert(text@ =~= decimal((number / 10) as nat).push(digit_char((number % 10) as nat)));
        text
    }
}

/// What the editor is told to go to for `path` and `line`.
pub fn editor_target(path: &str, line: u32) -> (target: String)
    ensures
        target@ == goto_target(path@, line as nat),
{
    let line_number: u32 = if line == 0 {
        1
    } else {
        line
    };
    let digits = decimal_text(line_number);
    join3(path, ":", digits.as_str())
}

/// The kind of system the program runs on, as far as starting the editor
/// goes.
#[derive(Clone, Copy, Debug, PartialEq, Eq)]
pub enum EditorHost {
    /// macOS, where the editor can also be reached as an application.
    MacOs,
    /// Any other system.
    Other,
}

/// One way to start the editor: a program and its arguments.
#[derive(Debug, PartialEq, Eq)]
pub struct EditorCommand {
    pub program: String,
    pub args: Vec<String>,
}

/// The mathematical value of [`EditorCommand`].
pub ghost struct EditorCommandView {
    pub program: Seq<char>,
    pub args: Seq<Seq<char>>,
}

impl View for EditorCommand {
    type V = EditorCommandView;

    open spec fn view(&self) -> EditorCommandView {
        EditorCommandView { program: self.program@, args: self.args.deep_view() }
    }
}

impl DeepView for EditorCommand {
    type V = EditorCommandView;

    open spec fn deep_view(&self) -> EditorCommandView {
        self.view()
    }
}

/// The editor's own command, asked for a new window at `target`.
pub open spec fn direct_command(target: Seq<char>) -> EditorCommandView {
    EditorCommandView { program: "code"@, args: seq!["-n"@, "-g"@, target] }
}

/// The editor started as an application, asked for a new window at `target`.
pub open spec fn application_command(target: Seq<char>) -> EditorCommandView {
    EditorCommandView {
        program: "open"@,
        args: seq!["-a"@, "Visual Studio Code"@, "--args"@, "-n"@, "-g"@, target],
    }
}

/// The commands to try, first to last, until one starts: the editor's own
/// command everywhere, and the application after it on macOS.
pub open spec fn commands_to_try(host: EditorHost, target: Seq<char>) -> Seq<EditorCommandView> {
    match host {
        EditorHost::MacOs => seq![direct_command(target), application_command(target)],
        EditorHost::Other => seq![direct_command(target)],
    }
}

/// What to say where none of the commands started.
pub open spec fn launch_failure(host: EditorHost) -> Seq<char> {
    match host {
        EditorHost::MacOs => "Unable to launch Visual Studio Code. Install the `code` shell command or ensure VS Code is installed."@,
        EditorHost::Other => "Unable to launch Visual Studio Code using the `code` command. Ensure VS Code CLI is installed."@,
    }
}

/// The commands to try, first to last, to open `path` at `line`.
pub fn editor_commands(host: EditorHost, path: &str, line: u32) -> (commands: Vec<EditorCommand>)
    ensures
        commands.deep_view() == commands_to_try(host, goto_target(path@, line as nat)),
{
    let target = editor_target(path, line);
    let mut commands: Vec<EditorCommand> = Vec::new();
    let mut direct_args: Vec<String> = Vec::new();
    direct_args.push("-n".to_string());
    direct_args.push("-g".to_string());
    direct_args.push(target.clone());
    let direct = EditorCommand { program: "code".to_string(), args: direct_args };
    assert(direct.args.deep_view() =~= seq!["-n"@, "-g"@, target@]);
    commands.push(direct);
    match host {
        EditorHost::MacOs => {
            let mut application_args: Vec<String> = Vec::new();
            application_args.push("-a".to_string());
            application_args.push("Visual Studio Code".to_string());
            application_args.push("--args".to_string());
            application_args.push("-n".to_string());
            application_args.push("-g".to_string());
            application_args.push(target);
            let application = EditorCommand { program: "open".to_string(), args: application_args };
            assert(application.args.deep_view() =~= seq![
                "-a"@,
                "Visual Studio Code"@,
                "--args"@,
                "-n"@,
                "-g"@,
                target@,
            ]);
            commands.push(application);
        },
        EditorHost::Other => {},
    }
    assert(commands.deep_view() =~= commands_to_try(host, goto_target(path@, line as nat)));
    commands
}

/// What to say where none of the commands started.
pub fn editor_launch_failure(host: EditorHost) -> (reason: String)
    ensures
        reason@ == launch_failure(host),
{
    match host {
        EditorHost::MacOs => "Unable to launch Visual Studio Code. Install the `code` shell command or ensure VS Code is installed.".to_string(),
        EditorHost::Other => "Unable to launch Visual Studio Code using the `code` command. Ensure VS Code CLI is installed.".to_string(),
    }
}

} // verus!
