use vstd::prelude::*;

use crate::config::{LogLevel, LogVariablesImpl};
use crate::log_rotator::{LogConfig, LogPath, LogRotatorConfig};

verus! {

/// What the host found out about a candidate log directory: whether it
/// exists, whether it is a directory, and whether it is read-only (`None`
/// when its metadata could not be read).
#[derive(Clone, Copy, Debug, PartialEq, Eq, Structural)]
pub struct PathFacts {
    pub exists: bool,
    pub is_dir: bool,
    pub readonly: Option<bool>,
}

/// Why a log directory was refused. Each is a fatal configuration error:
/// the host reports it and ends the process.
#[derive(Clone, Copy, Debug, PartialEq, Eq, Structural)]
pub enum PathError {
    PathNotFound,
    PathNotDirectory,
    MetadataUnavailable,
    PathNotWritable,
}

/// The first check that a directory fails, in the order existence,
/// kind, metadata, permissions; `None` when it passes them all.
pub open spec fn path_problem(f: PathFacts) -> Option<PathError> {
    if !f.exists {
        Some(PathError::PathNotFound)
    } else if !f.is_dir {
        Some(PathError::PathNotDirectory)
    } else if f.readonly.is_none() {
        Some(PathError::MetadataUnavailable)
    } else if f.readonly.unwrap() {
        Some(PathError::PathNotWritable)
    } else {
        None
    }
}

/// The directory that a configuration names.
pub open spec fn config_dir(config: LogConfig) -> Seq<char> {
    match config {
        LogConfig::Path(LogPath::Path(p)) => p@,
        LogConfig::Rotator(r) => r.log_path@,
    }
}

/// Sets the output level; the directory and the rotation policy stay.
pub fn set_log_level(vars: &mut LogVariablesImpl, level: LogLevel)
    ensures
        final(vars).level == level,
        final(vars).directory == old(vars).directory,
        final(vars).rotation == old(vars).rotation,
{
    vars.set_level(level);
}

/// Checks a candidate log directory against the facts gathered about it.
pub fn validate_log_path(facts: &PathFacts) -> (r: Result<(), PathError>)
    ensures
        r == (match path_problem(*facts) {
            Some(e) => Err(e),
            None => Ok(()),
        }),
{
    if !facts.exists {
        Err(PathError::PathNotFound)
    } else if !facts.is_dir {
        Err(PathError::PathNotDirectory)
    } else {
        match facts.readonly {
            None => Err(PathError::MetadataUnavailable),
            Some(true) => Err(PathError::PathNotWritable),
            Some(false) => Ok(()),
        }
    }
}

/// The directory that `config` names; the host gathers its facts.
pub fn config_directory(config: &LogConfig) -> (r: &str)
    ensures
        r@ == config_dir(*config),
{
    match config {
        LogConfig::Path(LogPath::Path(p)) => p.as_str(),
        LogConfig::Rotator(r) => r.log_path.as_str(),
    }
}

/// Installs the directory of `config`, and its rotation policy if it has one,
/// once `facts` (about that directory) show it usable. On refusal nothing
/// changes. The output level is never touched.
pub fn set_log_path(vars: &mut LogVariablesImpl, config: LogConfig, facts: &PathFacts) -> (r: Result<
    (),
    PathError,
>)
    ensures
        r == (match path_problem(*facts) {
            Some(e) => Err(e),
            None => Ok(()),
        }),
        r.is_err() ==> *final(vars) == *old(vars),
        r.is_ok() ==> final(vars).directory@ == config_dir(config),
        r.is_ok() ==> final(vars).rotation == (match config {
            LogConfig::Rotator(p) => Some(p),
            LogConfig::Path(_) => old(vars).rotation,
        }),
        final(vars).level == old(vars).level,
{
    match validate_log_path(facts) {
        Err(e) => Err(e),
        Ok(()) => {
            match config {
                LogConfig::Path(LogPath::Path(p)) => {
                    vars.set_directory(p);
                },
                LogConfig::Rotator(policy) => {
                    let dir = policy.log_path.clone();
                    vars.set_directory(dir);
                    vars.set_rotation_policy(policy);
                },
            }
            Ok(())
        },
    }
}

} // verus!
