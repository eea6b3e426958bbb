//! The settings that a repository's git configuration holds for this tool.

use crate::git::{config_string, error_message};
use crate::text::text_of;
use vstd::prelude::*;

verus! {

/// What to do with the parent repository after submodules were updated.
#[derive(Clone, Copy, Debug, PartialEq, Eq, Structural)]
pub enum CommitMode {
    /// Commit at once.
    Auto,
    /// Stage the changes and leave the commit to the user.
    Stage,
    /// Show the changes and ask.
    Prompt,
}

/// The settings of one repository.
#[derive(Debug)]
pub struct Config {
    /// The directory under which submodules are placed.
    pub root: String,
    pub commit_mode: CommitMode,
}

/// The repository's configuration cannot be opened.
#[derive(Debug)]
pub struct ConfigError {
    pub detail: String,
}

/// The root directory for the value of `dom.root`: `src` where it is not set.
pub open spec fn root_setting(value: Option<Seq<char>>) -> Seq<char> {
    match value {
        Some(v) => v,
        None => "src"@,
    }
}

/// The commit mode for the value of `dom.commit`: `stage` and `prompt` name their modes,
/// and anything else, or nothing, means `Auto`.
pub open spec fn commit_mode_setting(value: Option<Seq<char>>) -> CommitMode {
    match value {
        Some(v) => if v == "stage"@ {
            CommitMode::Stage
        } else if v == "prompt"@ {
            CommitMode::Prompt
        } else {
            CommitMode::Auto
        },
        None => CommitMode::Auto,
    }
}

impl CommitMode {
    /// The mode that the value of `dom.commit` stands for.
    pub fn from_setting(value: &Option<String>) -> (mode: CommitMode)
        ensures
            mode == commit_mode_setting(text_of(*value)),
    {
        match value {
            Some(v) => {
                let given = v.clone();
                if given == String::from_str("stage") {
                    CommitMode::Stage
                } else if given == String::from_str("prompt") {
                    CommitMode::Prompt
                } else {
                    CommitMode::Auto
                }
            },
            None => CommitMode::Auto,
        }
    }
}

impl Config {
    /// The settings for the values of `dom.root` and `dom.commit`.
    pub fn from_settings(root: Option<String>, commit: Option<String>) -> (c: Config)
        ensures
            c.root@ == root_setting(text_of(root)),
            c.commit_mode == commit_mode_setting(text_of(commit)),
    {
        let commit_mode = CommitMode::from_setting(&commit);
        let root = match root {
            Some(r) => r,
            None => String::from_str("src"),
        };
        Config { root, commit_mode }
    }

    /// The settings for what the two lookups of `dom.root` and `dom.commit` returned. A
    /// value that is not set counts as not given; a lookup that failed fails the whole.
    pub fn from_lookups(
        root: Result<Option<String>, git2::Error>,
        commit: Result<Option<String>, git2::Error>,
    ) -> (r: Result<Config, ConfigError>)
        ensures
            match (root, commit) {
                (Ok(root), Ok(commit)) => r matches Ok(c) && c.root@ == root_setting(
                    text_of(root),
                ) && c.commit_mode == commit_mode_setting(text_of(commit)),
                _ => r is Err,
            },
    {
        let root = match root {
            Ok(v) => v,
            Err(e) => {
                return Err(ConfigError { detail: error_message(&e) });
            },
        };
        let commit = match commit {
            Ok(v) => v,
            Err(e) => {
                return Err(ConfigError { detail: error_message(&e) });
            },
        };
        Ok(Config::from_settings(root, commit))
    }

    /// Reads the settings from the configuration of `repo`. Only a configuration that does
    /// not open fails.
    pub fn load(repo: &git2::Repository) -> (r: Result<Config, ConfigError>) {
        let root = config_string(repo, "dom.root");
        let commit = config_string(repo, "dom.commit");
        Config::from_lookups(root, commit)
    }
}

} // verus!
