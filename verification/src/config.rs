//! The project-local configuration: names that are left out by default.

use vstd::prelude::*;
use vstd::string::StringExecFns;
use crate::args::texts;

verus! {

/// The directory names to leave out unless a stronger rule says otherwise.
#[derive(Debug)]
pub struct LoopConfig {
    pub ignore: Vec<String>,
}

impl View for LoopConfig {
    type V = Seq<Seq<char>>;

    open spec fn view(&self) -> Seq<Seq<char>> {
        texts(self.ignore@)
    }
}

/// The one name that a freshly initialized configuration ignores.
pub const DEFAULT_IGNORED: &'static str = ".git";

/// What the diagnostic for an unreadable configuration starts with.
pub const PARSE_FAILURE: &'static str = "Failed to parse .looprc: ";

impl LoopConfig {
    /// The configuration that ignores nothing.
    pub fn empty() -> (config: LoopConfig)
        ensures
            config@ == Seq::<Seq<char>>::empty(),
    {
        LoopConfig { ignore: Vec::new() }
    }

    /// The configuration that initialization writes: it ignores
    /// [`DEFAULT_IGNORED`] and nothing else.
    pub fn initial() -> (config: LoopConfig)
        ensures
            config@ == seq![DEFAULT_IGNORED@],
    {
        let mut ignore: Vec<String> = Vec::new();
        ignore.push(String::from_str(DEFAULT_IGNORED));
        LoopConfig { ignore }
    }
}

/// What was found where the configuration file is looked for.
#[derive(Debug)]
pub enum ConfigFile {
    /// There is no file, or it cannot be read.
    Missing,
    /// There is a file, but it does not hold a configuration; the string
    /// says why.
    Unparsable(String),
    /// The configuration that the file holds.
    Parsed(LoopConfig),
}

/// The configuration that a run goes by, and what to tell the user about
/// how it was come by.
#[derive(Debug)]
pub struct LoadedConfig {
    pub config: LoopConfig,
    /// The line for the error stream, where there is something to report.
    pub diagnostic: Option<String>,
}

/// The ignore list that a run goes by: that of the file where it holds one,
/// else none.
pub open spec fn loaded_ignore(file: ConfigFile) -> Seq<Seq<char>> {
    match file {
        ConfigFile::Parsed(config) => config@,
        _ => Seq::empty(),
    }
}

/// The diagnostic that loading gives: one only for a file that is there
/// and does not hold a configuration.
pub open spec fn loaded_diagnostic(file: ConfigFile) -> Option<Seq<char>> {
    match file {
        ConfigFile::Unparsable(reason) => Some(PARSE_FAILURE@ + reason@),
        _ => None,
    }
}

/// Settles the configuration of a run from what was found on disk. Never
/// fails: a missing file gives the empty configuration silently, a file
/// that cannot be understood gives it with a diagnostic.
pub fn load(file: ConfigFile) -> (loaded: LoadedConfig)
    ensures
        loaded.config@ == loaded_ignore(file),
        file matches ConfigFile::Parsed(config) ==> loaded.config == config,
        match loaded_diagnostic(file) {
            Some(text) => loaded.diagnostic matches Some(line) && line@ == text,
            None => loaded.diagnostic is None,
        },
{
    match file {
        ConfigFile::Missing => LoadedConfig { config: LoopConfig::empty(), diagnostic: None },
        ConfigFile::Unparsable(reason) => {
            let mut line = String::from_str(PARSE_FAILURE);
            line.append(reason.as_str());
            LoadedConfig { config: LoopConfig::empty(), diagnostic: Some(line) }
        },
        ConfigFile::Parsed(config) => LoadedConfig { config, diagnostic: None },
    }
}

} // verus!
