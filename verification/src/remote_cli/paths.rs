//! What a path on the command line stands for.

use vstd::prelude::*;
use vstd::string::*;

use crate::remote_cli::wire::{Failure, RemoteCliPath};
use crate::text::concat2;

verus! {

/// The path begins with what may stand for the home directory: a tilde, alone or before a separator.
pub open spec fn begins_at_home(path: Seq<char>) -> bool {
    &&& path.len() >= 1
    &&& path[0] == '~'
    &&& path.len() == 1 || path[1] == '/' || path[1] == '\\'
}

/// `r` is the path with the home directory in place of the tilde that it begins with. Whether a
/// backslash behind the tilde counts as a separator is left to the machine.
pub open spec fn is_expanded(r: Seq<char>, path: Seq<char>, home: Option<Seq<char>>) -> bool {
    match home {
        Some(home) => if !begins_at_home(path) {
            r == path
        } else if path.len() == 1 || path[1] == '/' {
            r == home + path.skip(1)
        } else {
            r == path || r == home + path.skip(1)
        },
        None => r == path,
    }
}

/// The text of a path, where there is one.
pub open spec fn text_of_home(home: Option<&str>) -> Option<Seq<char>> {
    match home {
        Some(home) => Some(home@),
        None => None,
    }
}

/// `shellexpand::tilde_with_context` puts the home directory in place of a tilde at the beginning,
/// where the tilde stands alone or before a separator and there is a home directory, and leaves
/// every other path as it is. A slash is a separator everywhere, a backslash only on Windows.
#[verifier::external_body]
fn tilde(path: &str, home: Option<&str>) -> (r: String)
    ensures
        is_expanded(r@, path@, text_of_home(home)),
{
    shellexpand::tilde_with_context(path, || home).into_owned()
}

/// What is found out about a path on the disk.
#[derive(Clone, Debug)]
pub enum Stat {
    Exists { is_directory: bool },
    NotFound,
    /// Nothing could be found out, for the reason given. The path is given as it is displayed.
    Failed { path: String, error: String },
}

/// What is found out about the directory in which a path that does not exist would be.
#[derive(Clone, Debug)]
pub enum Parent {
    Resolved,
    NotFound,
    /// Nothing could be found out, for the reason given. The path is given as it is displayed.
    Failed { path: String, error: String },
}

/// What becomes known while a path is being resolved.
pub enum PathEvent {
    /// The path was checked as it is written, below the current directory.
    LiteralChecked(Stat),
    /// The path was taken apart into a path and a position.
    Parsed { row: Option<u32>, column: Option<u32> },
    /// The path that is to be opened was checked. `has_parent` tells whether it names a file in a
    /// directory.
    PathChecked { stat: Stat, has_parent: bool },
    /// The path that exists was made canonical, or could not be.
    Canonicalized(Result<(), String>),
    /// The directory of a path that does not exist was made canonical.
    ParentCanonicalized(Parent),
    /// The path is known; `None` where it is no valid UTF-8.
    Known(Option<String>),
}

/// What is to be done next to resolve a path.
#[derive(Debug)]
pub enum PathAction {
    /// Check the path, which is written below the current directory.
    CheckLiteral(String),
    /// Check the path as it is written, to open it.
    CheckLiteralPath,
    /// Take a position off the end of the path.
    ParsePosition,
    /// Check the path without the position, to open it.
    CheckPath,
    Canonicalize,
    CanonicalizeParent,
    /// Put the name of the file behind its canonical directory.
    JoinParent,
    /// Tell the path as it is.
    TellPath,
    Finish(Result<RemoteCliPath, Failure>),
}

impl PathAction {
    /// The path cannot be resolved.
    pub open spec fn fails_with(&self, message: Seq<char>, cause: Option<String>) -> bool {
        self matches PathAction::Finish(Err(failure)) && failure.tells(message, cause)
    }
}

/// A path that is being resolved: the position in it, and whether it is a directory.
#[derive(Debug)]
pub struct PathResolution {
    pub row: Option<u32>,
    pub column: Option<u32>,
    pub is_directory: bool,
}

/// Begins to resolve a path, given the home directory of the user where there is one.
pub fn resolve_cli_path(value: &str, home: Option<&str>) -> (r: (PathResolution, PathAction))
    ensures
        r.0 == (PathResolution { row: None, column: None, is_directory: false }),
        r.1 matches PathAction::CheckLiteral(path) && is_expanded(path@, value@, text_of_home(home)),
{
    (
        PathResolution { row: None, column: None, is_directory: false },
        PathAction::CheckLiteral(tilde(value, home)),
    )
}

impl PathResolution {
    /// Goes on to resolve the path. A path that exists as it is written has no position; only where
    /// none does, one is taken off its end.
    pub fn step(&mut self, event: PathEvent) -> (action: PathAction)
        ensures
            match event {
                PathEvent::LiteralChecked(stat) => match stat {
                    Stat::Exists { .. } => {
                        &&& action is CheckLiteralPath
                        &&& *final(self) == (PathResolution {
                            row: None,
                            column: None,
                            is_directory: old(self).is_directory,
                        })
                    },
                    Stat::NotFound => action is ParsePosition && *final(self) == *old(self),
                    Stat::Failed { path, error } => action.fails_with(
                        "reading "@ + path@,
                        Some(error),
                    ) && *final(self) == *old(self),
                },
                PathEvent::Parsed { row, column } => {
                    &&& action is CheckPath
                    &&& *final(self) == (PathResolution {
                        row,
                        column,
                        is_directory: old(self).is_directory,
                    })
                },
                PathEvent::PathChecked { stat, has_parent } => {
                    &&& final(self).row == old(self).row
                    &&& final(self).column == old(self).column
                    &&& final(self).is_directory == (stat matches Stat::Exists {
                        is_directory: true,
                    })
                    &&& match stat {
                        Stat::Exists { .. } => action is Canonicalize,
                        Stat::NotFound => if has_parent {
                            action is CanonicalizeParent
                        } else {
                            action is TellPath
                        },
                        Stat::Failed { path, error } => action.fails_with(
                            "reading "@ + path@,
                            Some(error),
                        ),
                    }
                },
                PathEvent::Canonicalized(result) => *final(self) == *old(self) && match result {
                    Ok(_) => action is TellPath,
                    Err(error) => action.fails_with(error@, None),
                },
                PathEvent::ParentCanonicalized(parent) => *final(self) == *old(self)
                    && match parent {
                    Parent::Resolved => action is JoinParent,
                    Parent::NotFound => action is TellPath,
                    Parent::Failed { path, error } => action.fails_with(
                        "resolving "@ + path@,
                        Some(error),
                    ),
                },
                PathEvent::Known(known) => *final(self) == *old(self) && match known {
                    Some(path) => {
                        &&& action matches PathAction::Finish(Ok(resolved))
                        &&& resolved == (RemoteCliPath {
                            path,
                            row: old(self).row,
                            column: old(self).column,
                            is_directory: old(self).is_directory,
                        })
                    },
                    None => action.fails_with("remote CLI paths must be valid UTF-8"@, None),
                },
            },
    {
        match event {
            PathEvent::LiteralChecked(stat) => match stat {
                Stat::Exists { .. } => {
                    self.row = None;
                    self.column = None;
                    PathAction::CheckLiteralPath
                },
                Stat::NotFound => PathAction::ParsePosition,
                Stat::Failed { path, error } => PathAction::Finish(
                    Err(Failure::caused(concat2("reading ", path.as_str()).as_str(), error)),
                ),
            },
            PathEvent::Parsed { row, column } => {
                self.row = row;
                self.column = column;
                PathAction::CheckPath
            },
            PathEvent::PathChecked { stat, has_parent } => match stat {
                Stat::Exists { is_directory } => {
                    self.is_directory = is_directory;
                    PathAction::Canonicalize
                },
                Stat::NotFound => {
                    self.is_directory = false;
                    if has_parent {
                        PathAction::CanonicalizeParent
                    } else {
                        PathAction::TellPath
                    }
                },
                Stat::Failed { path, error } => {
                    self.is_directory = false;
                    PathAction::Finish(
                        Err(Failure::caused(concat2("reading ", path.as_str()).as_str(), error)),
                    )
                },
            },
            PathEvent::Canonicalized(result) => match result {
                Ok(_) => PathAction::TellPath,
                Err(error) => PathAction::Finish(Err(Failure::new(error.as_str()))),
            },
            PathEvent::ParentCanonicalized(parent) => match parent {
                Parent::Resolved => PathAction::JoinParent,
                Parent::NotFound => PathAction::TellPath,
                Parent::Failed { path, error } => PathAction::Finish(
                    Err(Failure::caused(concat2("resolving ", path.as_str()).as_str(), error)),
                ),
            },
            PathEvent::Known(known) => match known {
                Some(path) => PathAction::Finish(
                    Ok(
                        RemoteCliPath {
                            path,
                            row: self.row,
                            column: self.column,
                            is_directory: self.is_directory,
                        },
                    ),
                ),
                None => PathAction::Finish(
                    Err(Failure::new("remote CLI paths must be valid UTF-8")),
                ),
            },
        }
    }
}

} // verus!
