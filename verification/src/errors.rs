//! The error kinds the shell reports. None of them is fatal to the shell
//! itself: the read loop reports the message and prompts again. Only an
//! explicit `exit` command ends the process.

use vstd::prelude::*;

use vstd::string::StringExecFns;

verus! {

/// Why a dispatch produced no normal output.
#[derive(Debug, PartialEq, Eq)]
pub enum ShellError {
    /// The name is neither a builtin nor resolvable on the search path.
    CommandNotFound(String),
    /// A builtin was invoked with missing or malformed arguments.
    InvalidArguments(String),
    /// The operating system refused to create the child process.
    SpawnFailure,
    /// Captured child output was not valid text.
    OutputDecodeFailure,
    /// The working directory could not be determined or encoded.
    EnvironmentQueryFailure,
}

/// The text reported for an error.
pub open spec fn spec_message(e: ShellError) -> Seq<char> {
    match e {
        ShellError::CommandNotFound(n) => n@ + ": command not found"@,
        ShellError::InvalidArguments(reason) => reason@,
        ShellError::SpawnFailure => "failed to spawn process"@,
        ShellError::OutputDecodeFailure => "could not decode command output"@,
        ShellError::EnvironmentQueryFailure => "could not parse current directory path"@,
    }
}

impl ShellError {
    /// Renders the error as the line the shell reports on its error stream.
    pub fn message(&self) -> (m: String)
        ensures
            m@ == spec_message(*self),
    {
        match self {
            ShellError::CommandNotFound(n) => {
                let mut m = n.clone();
                m.append(": command not found");
                m
            },
            ShellError::InvalidArguments(reason) => reason.clone(),
            ShellError::SpawnFailure => "failed to spawn process".to_owned(),
            ShellError::OutputDecodeFailure => "could not decode command output".to_owned(),
            ShellError::EnvironmentQueryFailure => {
                "could not parse current directory path".to_owned()
            },
        }
    }
}

} // verus!
