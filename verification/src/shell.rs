//! How a command is handed to the user's shell, and how its outcome is
//! reported.
//!
//! The command is not run directly: it is written into a short script that
//! first sources the shell's startup file, so that the user's aliases and
//! functions are there, and the script is given to the shell as a command
//! string. Nothing here starts a process; these functions compute what to
//! start and what to print.

use vstd::prelude::*;
use vstd::string::StringExecFns;
use crate::args::texts;
use crate::text::{decimal, decimal_text, ends_with, join, joined, replace_char, replaced, text_eq};

verus! {

/// The shell used where the environment names none.
pub const DEFAULT_SHELL: &'static str = "/bin/sh";

/// The home directory used where the environment names none.
pub const DEFAULT_HOME: &'static str = "/home/user";

/// The flag that makes a shell run a command string.
pub const COMMAND_FLAG: &'static str = "-c";

/// The name under which the current directory itself is shown.
pub const CURRENT_DIRECTORY: &'static str = ".";

/// The exit code recorded where the child ended without one, as after a
/// signal.
pub const NO_EXIT_CODE: i32 = -1;

/// The zsh script up to the command: sources the startup file, whether or
/// not it is there, and opens an `eval` of a quoted string.
pub const ZSH_PREAMBLE: &'static str =
    "\n            source ~/.zshrc 2>/dev/null\n            eval \"";

/// The zsh script after the command: closes the quoted string.
pub const ZSH_EPILOGUE: &'static str = "\"\n            ";

/// The fish script up to the command: sources the configuration, whether
/// or not it is there.
pub const FISH_PREAMBLE: &'static str =
    "\n            source ~/.config/fish/config.fish 2>/dev/null\n            ";

/// The script of a POSIX-compatible shell up to the command: sources
/// `~/.bashrc` where it is there.
pub const POSIX_PREAMBLE: &'static str =
    "\n            if [ -f ~/.bashrc ]; then . ~/.bashrc; fi\n            ";

/// The script after a command that stands verbatim.
pub const PLAIN_EPILOGUE: &'static str = "\n            ";

/// A double quote as it stands inside the quoted string of the zsh script.
pub const ESCAPED_QUOTE: &'static str = "\\\"";

/// The three families of shells that are told apart.
#[derive(Debug, Clone, Copy, PartialEq, Eq, Structural)]
pub enum ShellDialect {
    Zsh,
    Fish,
    /// bash and every other shell, taken to be POSIX-compatible.
    Posix,
}

/// The dialect of the shell at the path `shell`, told by how the path ends.
pub open spec fn dialect_of(shell: Seq<char>) -> ShellDialect {
    if "zsh"@.is_suffix_of(shell) {
        ShellDialect::Zsh
    } else if "fish"@.is_suffix_of(shell) {
        ShellDialect::Fish
    } else {
        ShellDialect::Posix
    }
}

impl ShellDialect {
    /// The dialect of the shell at the path `shell`.
    pub fn detect(shell: &str) -> (dialect: ShellDialect)
        ensures
            dialect == dialect_of(shell@),
    {
        if ends_with(shell, "zsh") {
            ShellDialect::Zsh
        } else if ends_with(shell, "fish") {
            ShellDialect::Fish
        } else {
            ShellDialect::Posix
        }
    }

    /// The script up to the command: the line that sources the startup
    /// file, and what opens the command's line.
    pub open spec fn preamble(self) -> Seq<char> {
        match self {
            ShellDialect::Zsh => ZSH_PREAMBLE@,
            ShellDialect::Fish => FISH_PREAMBLE@,
            ShellDialect::Posix => POSIX_PREAMBLE@,
        }
    }

    /// The script after the command.
    pub open spec fn epilogue(self) -> Seq<char> {
        match self {
            ShellDialect::Zsh => ZSH_EPILOGUE@,
            ShellDialect::Fish => PLAIN_EPILOGUE@,
            ShellDialect::Posix => PLAIN_EPILOGUE@,
        }
    }

    /// The command line as it stands in the script: verbatim, but for zsh,
    /// where it stands between double quotes and its own are escaped.
    pub open spec fn quoted(self, line: Seq<char>) -> Seq<char> {
        match self {
            ShellDialect::Zsh => replaced(line, '"', ESCAPED_QUOTE@),
            ShellDialect::Fish => line,
            ShellDialect::Posix => line,
        }
    }

    /// The script that runs the command line `line` in this dialect.
    pub open spec fn script(self, line: Seq<char>) -> Seq<char> {
        self.preamble() + self.quoted(line) + self.epilogue()
    }

    fn preamble_text(self) -> (text: &'static str)
        ensures
            text@ == self.preamble(),
    {
        match self {
            ShellDialect::Zsh => ZSH_PREAMBLE,
            ShellDialect::Fish => FISH_PREAMBLE,
            ShellDialect::Posix => POSIX_PREAMBLE,
        }
    }

    fn epilogue_text(self) -> (text: &'static str)
        ensures
            text@ == self.epilogue(),
    {
        match self {
            ShellDialect::Zsh => ZSH_EPILOGUE,
            ShellDialect::Fish => PLAIN_EPILOGUE,
            ShellDialect::Posix => PLAIN_EPILOGUE,
        }
    }

    fn quote(self, line: &str) -> (text: String)
        ensures
            text@ == self.quoted(line@),
    {
        match self {
            ShellDialect::Zsh => replace_char(line, '"', ESCAPED_QUOTE),
            ShellDialect::Fish => String::from_str(line),
            ShellDialect::Posix => String::from_str(line),
        }
    }

    /// Writes the script that runs the command line `line` in this dialect.
    pub fn write_script(self, line: &str) -> (script: String)
        ensures
            script@ == self.script(line@),
    {
        let mut script = String::from_str(self.preamble_text());
        script.append(self.quote(line).as_str());
        script.append(self.epilogue_text());
        script
    }
}

/// The command tokens as one line, a space between neighbours.
pub open spec fn command_line(command: Seq<Seq<char>>) -> Seq<char> {
    joined(command, " "@)
}

/// The value of an environment variable, or `fallback` where it is unset.
pub open spec fn or_default(value: Option<String>, fallback: Seq<char>) -> Seq<char> {
    match value {
        Some(text) => text@,
        None => fallback,
    }
}

fn value_or(value: Option<String>, fallback: &str) -> (text: String)
    ensures
        text@ == or_default(value, fallback@),
{
    match value {
        Some(text) => text,
        None => String::from_str(fallback),
    }
}

/// What to start for one directory: the program, its two arguments, and the
/// `HOME` that the child is given.
#[derive(Debug, Clone)]
pub struct Invocation {
    /// The shell to start.
    pub program: String,
    /// Its first argument: the flag that announces a command string.
    pub flag: String,
    /// Its second argument: the script.
    pub script: String,
    /// The value of `HOME` in the child's environment.
    pub home: String,
}

/// Builds the script for `command` in the dialect of the shell at `shell`.
pub fn build_script(shell: &str, command: &Vec<String>) -> (script: String)
    ensures
        script@ == dialect_of(shell@).script(command_line(texts(command@))),
{
    let line = join(command, " ");
    ShellDialect::detect(shell).write_script(line.as_str())
}

/// Plans the child process that runs `command`.
///
/// `shell` and `home` are what the environment holds under `SHELL` and
/// `HOME`, `None` where a variable is unset. The command is run verbatim,
/// the same for every directory.
pub fn plan_invocation(
    shell: Option<String>,
    home: Option<String>,
    command: &Vec<String>,
) -> (plan: Invocation)
    ensures
        plan.program@ == or_default(shell, DEFAULT_SHELL@),
        plan.flag@ == COMMAND_FLAG@,
        plan.script@ == dialect_of(plan.program@).script(command_line(texts(command@))),
        plan.home@ == or_default(home, DEFAULT_HOME@),
{
    let program = value_or(shell, DEFAULT_SHELL);
    let script = build_script(program.as_str(), command);
    Invocation {
        program,
        flag: String::from_str(COMMAND_FLAG),
        script,
        home: value_or(home, DEFAULT_HOME),
    }
}

/// The exit code that stands for the way a child ended: its own code, or
/// [`NO_EXIT_CODE`] where it ended without one.
pub open spec fn exit_code_of(status: Option<i32>) -> i32 {
    match status {
        Some(code) => code,
        None => NO_EXIT_CODE,
    }
}

/// The name under which a directory is shown: `.` for the current directory
/// itself, else the last component of the path, empty where it has none.
pub open spec fn shown_name(dir: Seq<char>, file_name: Option<Seq<char>>) -> Seq<char> {
    if dir == CURRENT_DIRECTORY@ {
        CURRENT_DIRECTORY@
    } else {
        match file_name {
            Some(name) => name,
            None => Seq::empty(),
        }
    }
}

/// The line that reports one finished command: the name and a check mark in
/// green, or the name, a cross and the exit code in red.
pub open spec fn status_text(directory: Seq<char>, exit_code: i32, success: bool) -> Seq<char> {
    if success {
        "\x1b[32m"@ + directory + " \u{2713}\x1b[0m"@
    } else {
        "\x1b[31m"@ + directory + " \u{2717}: exited code "@ + decimal(exit_code as int)
            + "\x1b[0m"@
    }
}

/// The name under which the directory at the path `dir` is shown.
///
/// `file_name` is the last component of `dir`, `None` where it has none.
pub fn display_name(dir: &str, file_name: Option<&str>) -> (name: String)
    ensures
        name@ == shown_name(
            dir@,
            match file_name {
                Some(n) => Some(n@),
                None => None,
            },
        ),
{
    if text_eq(dir, CURRENT_DIRECTORY) {
        String::from_str(CURRENT_DIRECTORY)
    } else {
        match file_name {
            Some(name) => String::from_str(name),
            None => String::new(),
        }
    }
}

/// How the command ended in one directory.
#[derive(Debug, Clone)]
pub struct ExecutionOutcome {
    /// The name under which the directory is shown.
    pub directory: String,
    /// The exit code recorded for the directory.
    pub exit_code: i32,
    /// Whether the command succeeded.
    pub success: bool,
}

impl ExecutionOutcome {
    /// Records how the child ended in `directory`. `status` is the child's
    /// exit code, `None` where it ended without one.
    ///
    /// Only the exit code 0 counts as success: a child that ended without a
    /// code is a failure with the code [`NO_EXIT_CODE`].
    pub fn new(directory: String, status: Option<i32>) -> (outcome: ExecutionOutcome)
        ensures
            outcome.directory == directory,
            outcome.exit_code == exit_code_of(status),
            outcome.success == (status == Some(0i32)),
            outcome.success <==> outcome.exit_code == 0,
    {
        match status {
            Some(code) => ExecutionOutcome { directory, exit_code: code, success: code == 0 },
            None => ExecutionOutcome { directory, exit_code: NO_EXIT_CODE, success: false },
        }
    }

    /// The line that reports this outcome.
    pub fn status_line(&self) -> (line: String)
        ensures
            line@ == status_text(self.directory@, self.exit_code, self.success),
    {
        if self.success {
            let mut line = String::from_str("\x1b[32m");
            line.append(self.directory.as_str());
            line.append(" \u{2713}\x1b[0m");
            line
        } else {
            let mut line = String::from_str("\x1b[31m");
            line.append(self.directory.as_str());
            line.append(" \u{2717}: exited code ");
            line.append(decimal_text(self.exit_code).as_str());
            line.append("\x1b[0m");
            line
        }
    }
}

/// The current directory itself is shown as `.`, a name of one character,
/// whatever its path has for a last component.
pub proof fn lemma_current_directory_is_shown_as_dot(file_name: Option<Seq<char>>)
    ensures
        shown_name(CURRENT_DIRECTORY@, file_name) == seq!['.'],
{
    reveal_strlit(".");
}

} // verus!
