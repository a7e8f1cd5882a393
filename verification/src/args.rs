//! The parsed user intent for one run.

use vstd::prelude::*;

verus! {

/// Everything the user asked for: the command tokens, an optional working
/// directory, and the six filter fields.
///
/// The two exclusive lists override every other filter. Of the two, the
/// allow-list `include_only` is consulted first.
#[derive(Debug, Clone)]
pub struct LoopOptions {
    /// The command to run, token by token. Empty only for an initialization.
    pub command: Vec<String>,
    /// The working directory; the current directory of the process where
    /// `None`.
    pub cwd: Option<String>,
    /// The allow-list. A child directory whose name is on it is in scope
    /// whatever the deny-list, the patterns and the ignore list say; and
    /// each entry is also taken as a path to a directory in which the
    /// command is run, wherever it lies.
    pub include_dirs: Option<Vec<String>>,
    /// The deny-list: names of child directories to leave out.
    pub exclude: Option<Vec<String>>,
    /// The exclusive allow-list: where set, only its members are in scope.
    /// The name `.` on it admits every directory.
    pub include_only: Option<Vec<String>>,
    /// The exclusive deny-list: where set, and `include_only` is not, every
    /// directory but its members is in scope.
    pub exclude_only: Option<Vec<String>>,
    /// The allow-pattern: a regular expression that a name must match
    /// somewhere to be in scope.
    pub include_pattern: Option<String>,
    /// The deny-pattern: a regular expression that a name must not match
    /// anywhere to be in scope.
    pub exclude_pattern: Option<String>,
    /// Whether the run only writes the initial configuration.
    pub init: bool,
}

/// The mathematical content of a [`LoopOptions`]: every string as its
/// sequence of characters, every list as a sequence.
pub struct LoopOptionsView {
    pub command: Seq<Seq<char>>,
    pub cwd: Option<Seq<char>>,
    pub include_dirs: Option<Seq<Seq<char>>>,
    pub exclude: Option<Seq<Seq<char>>>,
    pub include_only: Option<Seq<Seq<char>>>,
    pub exclude_only: Option<Seq<Seq<char>>>,
    pub include_pattern: Option<Seq<char>>,
    pub exclude_pattern: Option<Seq<char>>,
    pub init: bool,
}

/// The character sequences of a list of strings, in order.
pub open spec fn texts(items: Seq<String>) -> Seq<Seq<char>> {
    Seq::new(items.len(), |i: int| items[i]@)
}

/// The character sequences of an optional list of strings.
pub open spec fn optional_texts(items: Option<Vec<String>>) -> Option<Seq<Seq<char>>> {
    match items {
        Some(list) => Some(texts(list@)),
        None => None,
    }
}

/// The character sequence of an optional string.
pub open spec fn optional_text(item: Option<String>) -> Option<Seq<char>> {
    match item {
        Some(s) => Some(s@),
        None => None,
    }
}

impl View for LoopOptions {
    type V = LoopOptionsView;

    open spec fn view(&self) -> LoopOptionsView {
        LoopOptionsView {
            command: texts(self.command@),
            cwd: optional_text(self.cwd),
            include_dirs: optional_texts(self.include_dirs),
            exclude: optional_texts(self.exclude),
            include_only: optional_texts(self.include_only),
            exclude_only: optional_texts(self.exclude_only),
            include_pattern: optional_text(self.include_pattern),
            exclude_pattern: optional_text(self.exclude_pattern),
            init: self.init,
        }
    }
}

/// What a run is for.
#[derive(Debug, Clone, Copy, PartialEq, Eq, Structural)]
pub enum RunMode {
    /// Write the initial configuration and stop; no command is run.
    Initialize,
    /// Run the command in the directories in scope.
    Execute,
}

impl LoopOptions {
    /// What these options ask for: initialization wins over running the
    /// command.
    pub fn mode(&self) -> (mode: RunMode)
        ensures
            mode == if self.init {
                RunMode::Initialize
            } else {
                RunMode::Execute
            },
    {
        if self.init {
            RunMode::Initialize
        } else {
            RunMode::Execute
        }
    }
}

} // verus!
