//! How the commands whose output is parsed are to be run: live, recorded or replayed.
use vstd::prelude::*;

verus! {

#[derive(Debug, PartialEq, Eq, Structural, Clone, Copy)]
pub enum CommandMode {
    /// Run the command and keep nothing.
    Live,
    /// Run the command and record its output.
    Record,
    /// Replay a recorded output instead of running the command.
    Play,
}

/// The settings of one command run: the name its recording is kept under, the mode, and
/// the directory of the recordings.
pub struct CommandMock {
    pub name: String,
    pub mode: CommandMode,
    pub path: Option<String>,
}

impl CommandMock {
    pub fn with_mode(self, mode: CommandMode) -> (r: Self)
        ensures
            r.name@ == self.name@,
            r.mode == mode,
            r.path == self.path,
    {
        CommandMock { name: self.name, mode, path: self.path }
    }

    pub fn with_path(self, path: &str) -> (r: Self)
        ensures
            r.name@ == self.name@,
            r.mode == self.mode,
            r.path matches Some(p) && p@ == path@,
    {
        CommandMock { name: self.name, mode: self.mode, path: Some(String::from_str(path)) }
    }

    pub fn new(name: &str) -> (r: Self)
        ensures
            r.name@ == name@,
            r.mode == CommandMode::Live,
            r.path is None,
    {
        CommandMock { name: String::from_str(name), mode: CommandMode::Live, path: None }
    }
}

} // verus!
