//! The session: what is printed, and where the shell stands, after each line.

use vstd::prelude::*;
use vstd::string::*;
use crate::workdir::WorkingDir;
use crate::command::LineError;
use crate::shell::{Effect, prompt, prompt_text};

verus! {

/// The part of a command's work that failed.
#[derive(Clone, Copy, Debug, PartialEq, Eq, Structural)]
pub enum Stage {
    Canonicalize,
    Open,
    Accept,
    ReadStream,
    Read,
    Write,
    List,
    ReadEntry,
    EntryName,
}

impl Stage {
    /// The words that name the stage in an error message.
    pub open spec fn spec_words(self) -> Seq<char> {
        match self {
            Stage::Canonicalize => "canonicalize"@,
            Stage::Open => "open"@,
            Stage::Accept => "accept connection on"@,
            Stage::ReadStream => "read from stream on"@,
            Stage::Read => "read"@,
            Stage::Write => "write to"@,
            Stage::List => "list directory"@,
            Stage::ReadEntry => "read directory entry in"@,
            Stage::EntryName => "parse entry name in"@,
        }
    }

    /// The words that name the stage in an error message.
    pub fn words(&self) -> (r: &'static str)
        ensures
            r@ == self.spec_words(),
    {
        match self {
            Stage::Canonicalize => "canonicalize",
            Stage::Open => "open",
            Stage::Accept => "accept connection on",
            Stage::ReadStream => "read from stream on",
            Stage::Read => "read",
            Stage::Write => "write to",
            Stage::List => "list directory",
            Stage::ReadEntry => "read directory entry in",
            Stage::EntryName => "parse entry name in",
        }
    }
}

/// Why a line failed.
pub enum ShellError {
    /// The line is no command.
    Line(LineError),
    /// The work on the file system or a socket failed at `stage` on `path`,
    /// for the reason `cause`.
    Io { stage: Stage, path: String, cause: String },
}

impl ShellError {
    /// The text shown for the error.
    pub open spec fn spec_message(&self) -> Seq<char> {
        match self {
            ShellError::Line(e) => e.spec_message(),
            ShellError::Io { stage, path, cause } => "failed to "@ + stage.spec_words() + " `"@
                + path@ + "`: "@ + cause@,
        }
    }

    /// The text shown for the error.
    pub fn message(&self) -> (r: String)
        ensures
            r@ == self.spec_message(),
    {
        match self {
            ShellError::Line(e) => String::from_str(e.message()),
            ShellError::Io { stage, path, cause } => {
                let mut m = String::from_str("failed to ");
                m.append(stage.words());
                m.append(" `");
                m.append(path.as_str());
                m.append("`: ");
                m.append(cause.as_str());
                m
            },
        }
    }
}

/// Where the shell stands after a line with outcome `r`, having stood at
/// `dir`: the effect's directory if it names one, else `dir`.
pub open spec fn next_dir(dir: Seq<char>, r: Result<Effect, ShellError>) -> Seq<char> {
    match r {
        Ok(e) => match e.dir {
            Some(d) => d@,
            None => dir,
        },
        Err(_) => dir,
    }
}

/// What is printed on standard output after a line with outcome `r`: the
/// effect's output and one newline.
pub open spec fn printed(r: Result<Effect, ShellError>) -> Option<Seq<u8>> {
    match r {
        Ok(e) => match e.out {
            Some(o) => Some(o@.push(10u8)),
            None => None,
        },
        Err(_) => None,
    }
}

/// The code that a line with outcome `r` ends the session with, if it does.
pub open spec fn exit_code(r: Result<Effect, ShellError>) -> Option<i32> {
    match r {
        Ok(e) => e.exit,
        Err(_) => None,
    }
}

/// What is printed on the diagnostic stream after a line with outcome `r`:
/// the error if there is one, then the prompt for the next line.
pub open spec fn diagnosed(dir: Seq<char>, r: Result<Effect, ShellError>) -> Seq<char> {
    match r {
        Ok(_) => prompt_text(next_dir(dir, r)),
        Err(e) => "Error: "@ + e.spec_message() + "\n"@ + prompt_text(dir),
    }
}

/// What the session does after one line.
pub struct Reaction {
    /// Where the shell now stands.
    pub dir: WorkingDir,
    /// What to print on standard output.
    pub stdout: Option<Vec<u8>>,
    /// What to print on the diagnostic stream, unless the session ends.
    pub stderr: String,
    /// The code to end the session with, at once.
    pub exit: Option<i32>,
}

/// Carries the session over one line whose outcome is `r`: a failed line
/// leaves the directory as it was and is reported; a successful one moves,
/// prints or ends the session as its effect says.
pub fn react(dir: WorkingDir, r: Result<Effect, ShellError>) -> (out: Reaction)
    ensures
        out.dir@ == next_dir(dir@, r),
        match out.stdout {
            Some(o) => printed(r) == Some(o@),
            None => printed(r) is None,
        },
        out.stderr@ == diagnosed(dir@, r),
        out.exit == exit_code(r),
{
    match r {
        Ok(effect) => {
            let Effect { dir: moved, out, exit } = effect;
            let stdout = match out {
                Some(mut o) => {
                    o.push(10u8);
                    Some(o)
                },
                None => None,
            };
            let next = match moved {
                Some(d) => d,
                None => dir,
            };
            let stderr = prompt(&next);
            Reaction { dir: next, stdout, stderr, exit }
        },
        Err(e) => {
            let mut stderr = String::from_str("Error: ");
            stderr.append(e.message().as_str());
            stderr.append("\n");
            let p = prompt(&dir);
            stderr.append(p.as_str());
            Reaction { dir, stdout: None, stderr, exit: None }
        },
    }
}

} // verus!
