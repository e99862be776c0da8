use vstd::prelude::*;

verus! {

/// Where log records go: only to the console, only to a file, or to both.
#[derive(Clone, Copy, Debug, PartialEq, Eq, Structural)]
pub enum LogLevel {
    Console,
    File,
    Both,
}

/// Read access to the active output level.
pub trait LogVariables {
    /// The output level that `log_level` reports.
    spec fn spec_log_level(&self) -> LogLevel;

    /// Returns the active output level.
    fn log_level(&self) -> (r: LogLevel)
        ensures
            r == self.spec_log_level(),
    ;
}

/// The configuration store: the active output level, the log directory
/// (empty means the current working directory) and the optional rotation
/// policy. A host that shares it between threads guards each field on its
/// own and copies values out before acting on them.
pub struct LogVariablesImpl {
    pub level: LogLevel,
    pub directory: String,
    pub rotation: Option<crate::log_rotator::LogRotatorConfig>,
}

impl LogVariables for LogVariablesImpl {
    open spec fn spec_log_level(&self) -> LogLevel {
        self.level
    }

    fn log_level(&self) -> (r: LogLevel) {
        self.level
    }
}

impl LogVariablesImpl {
    /// A fresh store: console output, the current directory, no rotation.
    pub fn new() -> (r: Self)
        ensures
            r.level == LogLevel::Console,
            r.directory@ == Seq::<char>::empty(),
            r.rotation.is_none(),
    {
        LogVariablesImpl { level: LogLevel::Console, directory: String::new(), rotation: None }
    }

    /// Returns the active output level.
    pub fn get_level(&self) -> (r: LogLevel)
        ensures
            r == self.level,
    {
        self.level
    }

    /// Replaces the output level; the other fields are untouched.
    pub fn set_level(&mut self, level: LogLevel)
        ensures
            final(self).level == level,
            final(self).directory == old(self).directory,
            final(self).rotation == old(self).rotation,
    {
        self.level = level;
    }

    /// Returns a copy of the log directory.
    pub fn get_directory(&self) -> (r: String)
        ensures
            r@ == self.directory@,
    {
        self.directory.clone()
    }

    /// Replaces the log directory; the other fields are untouched.
    pub fn set_directory(&mut self, directory: String)
        ensures
            final(self).directory == directory,
            final(self).level == old(self).level,
            final(self).rotation == old(self).rotation,
    {
        self.directory = directory;
    }

    /// Returns a copy of the rotation policy, if one is installed.
    pub fn get_rotation_policy(&self) -> (r: Option<crate::log_rotator::LogRotatorConfig>)
        ensures
            r == self.rotation,
    {
        match &self.rotation {
            Some(p) => Some(p.copy()),
            None => None,
        }
    }

    /// Replaces the rotation policy; the other fields are untouched.
    pub fn set_rotation_policy(&mut self, policy: crate::log_rotator::LogRotatorConfig)
        ensures
            final(self).rotation == Some(policy),
            final(self).level == old(self).level,
            final(self).directory == old(self).directory,
    {
        self.rotation = Some(policy);
    }
}

} // verus!
