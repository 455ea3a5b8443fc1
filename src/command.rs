//! The command line: a keyword out of a closed set of eight, and the raw text
//! after it.

use vstd::prelude::*;
use crate::text::{trim, is_alphanumeric, split_once, same_text, trimmed, alnum, split_first};

verus! {

/// The commands the shell knows.
#[derive(Clone, Copy, Debug, PartialEq, Eq, Structural)]
pub enum Keyword {
    Accept,
    Cat,
    Cd,
    Help,
    Echo,
    Exit,
    Ls,
    Pwd,
}

/// The keywords in the order in which `help` lists them.
pub open spec fn all_keywords() -> Seq<Keyword> {
    seq![
        Keyword::Accept,
        Keyword::Cat,
        Keyword::Cd,
        Keyword::Help,
        Keyword::Echo,
        Keyword::Exit,
        Keyword::Ls,
        Keyword::Pwd,
    ]
}

impl Keyword {
    /// The word that names the command.
    pub open spec fn spec_name(self) -> Seq<char> {
        match self {
            Keyword::Accept => "accept"@,
            Keyword::Cat => "cat"@,
            Keyword::Cd => "cd"@,
            Keyword::Help => "help"@,
            Keyword::Echo => "echo"@,
            Keyword::Exit => "exit"@,
            Keyword::Ls => "ls"@,
            Keyword::Pwd => "pwd"@,
        }
    }

    /// The usage line shown when the command is given the wrong shape of
    /// argument; `cd` and `ls` accept every shape and have none.
    pub open spec fn spec_usage(self) -> Option<Seq<char>> {
        match self {
            Keyword::Accept => Some("Usage: accept FILE"@),
            Keyword::Cat => Some("Usage: cat FILE"@),
            Keyword::Echo => Some("Usage: echo [WORD|\"TEXT\"|'TEXT'] > FILE"@),
            Keyword::Exit => Some("Usage: exit"@),
            Keyword::Help => Some("Usage: help"@),
            Keyword::Pwd => Some("Usage: pwd"@),
            Keyword::Cd => None,
            Keyword::Ls => None,
        }
    }

    /// The word that names the command.
    pub fn name(&self) -> (r: &'static str)
        ensures
            r@ == self.spec_name(),
    {
        match self {
            Keyword::Accept => "accept",
            Keyword::Cat => "cat",
            Keyword::Cd => "cd",
            Keyword::Help => "help",
            Keyword::Echo => "echo",
            Keyword::Exit => "exit",
            Keyword::Ls => "ls",
            Keyword::Pwd => "pwd",
        }
    }

    /// The usage line of the command, if it has one.
    pub fn usage(&self) -> (r: Option<&'static str>)
        ensures
            r is Some == self.spec_usage() is Some,
            r is Some ==> r->0@ == self.spec_usage()->0,
    {
        match self {
            Keyword::Accept => Some("Usage: accept FILE"),
            Keyword::Cat => Some("Usage: cat FILE"),
            Keyword::Echo => Some("Usage: echo [WORD|\"TEXT\"|'TEXT'] > FILE"),
            Keyword::Exit => Some("Usage: exit"),
            Keyword::Help => Some("Usage: help"),
            Keyword::Pwd => Some("Usage: pwd"),
            Keyword::Cd => None,
            Keyword::Ls => None,
        }
    }
}

/// The keyword that `word` names, if any.
pub open spec fn keyword_of(word: Seq<char>) -> Option<Keyword> {
    if word == "accept"@ {
        Some(Keyword::Accept)
    } else if word == "cat"@ {
        Some(Keyword::Cat)
    } else if word == "cd"@ {
        Some(Keyword::Cd)
    } else if word == "help"@ {
        Some(Keyword::Help)
    } else if word == "echo"@ {
        Some(Keyword::Echo)
    } else if word == "exit"@ {
        Some(Keyword::Exit)
    } else if word == "ls"@ {
        Some(Keyword::Ls)
    } else if word == "pwd"@ {
        Some(Keyword::Pwd)
    } else {
        None
    }
}

/// The keyword that `word` names, if any.
pub fn lookup(word: &str) -> (r: Option<Keyword>)
    ensures
        r == keyword_of(word@),
{
    if same_text(word, "accept") {
        Some(Keyword::Accept)
    } else if same_text(word, "cat") {
        Some(Keyword::Cat)
    } else if same_text(word, "cd") {
        Some(Keyword::Cd)
    } else if same_text(word, "help") {
        Some(Keyword::Help)
    } else if same_text(word, "echo") {
        Some(Keyword::Echo)
    } else if same_text(word, "exit") {
        Some(Keyword::Exit)
    } else if same_text(word, "ls") {
        Some(Keyword::Ls)
    } else if same_text(word, "pwd") {
        Some(Keyword::Pwd)
    } else {
        None
    }
}

/// Why a line is not a command.
#[derive(Clone, Copy, Debug, PartialEq, Eq, Structural)]
pub enum LineError {
    /// The line starts with neither whitespace nor a letter or digit.
    BadStart,
    /// The first word is not a known command.
    Unknown,
    /// A known command with an argument where it takes none, or none where
    /// it needs one.
    Usage(Keyword),
    /// `echo` without a `>` before the file to write.
    NoRedirect,
}

impl LineError {
    /// The text shown for the error.
    pub open spec fn spec_message(self) -> Seq<char> {
        match self {
            LineError::BadStart => "line must start with an alphanumeric character or whitespace"@,
            LineError::Unknown => "failed to parse line"@,
            LineError::NoRedirect => "missing `>`"@,
            LineError::Usage(k) => match k.spec_usage() {
                Some(u) => u,
                None => "failed to parse line"@,
            },
        }
    }

    /// The text shown for the error.
    pub fn message(&self) -> (r: &'static str)
        ensures
            r@ == self.spec_message(),
    {
        match self {
            LineError::BadStart => "line must start with an alphanumeric character or whitespace",
            LineError::Unknown => "failed to parse line",
            LineError::NoRedirect => "missing `>`",
            LineError::Usage(k) => match k.usage() {
                Some(u) => u,
                None => "failed to parse line",
            },
        }
    }
}

/// A parsed line, with the raw argument text not yet unquoted.
pub enum Command {
    Blank,
    Accept(String),
    Cat(String),
    Cd(Option<String>),
    Echo(String),
    Exit,
    Help,
    Ls(Option<String>),
    Pwd,
}

/// A parsed line, as its text.
pub enum CommandView {
    Blank,
    Accept(Seq<char>),
    Cat(Seq<char>),
    Cd(Option<Seq<char>>),
    Echo(Seq<char>),
    Exit,
    Help,
    Ls(Option<Seq<char>>),
    Pwd,
}

/// The text of an optional string.
pub open spec fn opt_view(o: Option<String>) -> Option<Seq<char>> {
    match o {
        Some(s) => Some(s@),
        None => None,
    }
}

impl View for Command {
    type V = CommandView;

    open spec fn view(&self) -> CommandView {
        match self {
            Command::Blank => CommandView::Blank,
            Command::Accept(a) => CommandView::Accept(a@),
            Command::Cat(a) => CommandView::Cat(a@),
            Command::Cd(a) => CommandView::Cd(opt_view(*a)),
            Command::Echo(a) => CommandView::Echo(a@),
            Command::Exit => CommandView::Exit,
            Command::Help => CommandView::Help,
            Command::Ls(a) => CommandView::Ls(opt_view(*a)),
            Command::Pwd => CommandView::Pwd,
        }
    }
}

/// A keyword standing alone on its line.
pub open spec fn bare(k: Keyword) -> Result<CommandView, LineError> {
    match k {
        Keyword::Cd => Ok(CommandView::Cd(None)),
        Keyword::Exit => Ok(CommandView::Exit),
        Keyword::Help => Ok(CommandView::Help),
        Keyword::Ls => Ok(CommandView::Ls(None)),
        Keyword::Pwd => Ok(CommandView::Pwd),
        _ => Err(LineError::Usage(k)),
    }
}

/// A keyword followed by a space and the text `rest`.
pub open spec fn with_rest(k: Keyword, rest: Seq<char>) -> Result<CommandView, LineError> {
    match k {
        Keyword::Accept => Ok(CommandView::Accept(rest)),
        Keyword::Cat => Ok(CommandView::Cat(rest)),
        Keyword::Cd => Ok(CommandView::Cd(Some(rest))),
        Keyword::Echo => Ok(CommandView::Echo(rest)),
        Keyword::Ls => Ok(CommandView::Ls(Some(rest))),
        _ => Err(LineError::Usage(k)),
    }
}

/// What a line means: once trimmed, blank, or a keyword standing alone, or a
/// keyword, a space and the rest of the line.
pub open spec fn parsed(line: Seq<char>) -> Result<CommandView, LineError> {
    let t = trimmed(line);
    if t.len() == 0 {
        Ok(CommandView::Blank)
    } else if !alnum(t[0]) {
        Err(LineError::BadStart)
    } else {
        match split_first(t, ' ') {
            None => match keyword_of(t) {
                Some(k) => bare(k),
                None => Err(LineError::Unknown),
            },
            Some((word, rest)) => match keyword_of(word) {
                Some(k) => with_rest(k, rest),
                None => Err(LineError::Unknown),
            },
        }
    }
}

/// The spec-level outcome of parsing.
pub open spec fn parse_view(r: Result<Command, LineError>) -> Result<CommandView, LineError> {
    match r {
        Ok(c) => Ok(c@),
        Err(e) => Err(e),
    }
}

/// Splits a line into its command and the raw text after the command word.
pub fn parse_line(line: &str) -> (r: Result<Command, LineError>)
    ensures
        parse_view(r) == parsed(line@),
{
    let t = trim(line);
    let mut chars = t.chars();
    let first = chars.next();
    match first {
        None => Ok(Command::Blank),
        Some(c) => {
            if !is_alphanumeric(c) {
                return Err(LineError::BadStart);
            }
            match split_once(t, ' ') {
                None => match lookup(t) {
                    None => Err(LineError::Unknown),
                    Some(k) => match k {
                        Keyword::Cd => Ok(Command::Cd(None)),
                        Keyword::Exit => Ok(Command::Exit),
                        Keyword::Help => Ok(Command::Help),
                        Keyword::Ls => Ok(Command::Ls(None)),
                        Keyword::Pwd => Ok(Command::Pwd),
                        _ => Err(LineError::Usage(k)),
                    },
                },
                Some((word, rest)) => match lookup(word) {
                    None => Err(LineError::Unknown),
                    Some(k) => match k {
                        Keyword::Accept => Ok(Command::Accept(rest.to_owned())),
                        Keyword::Cat => Ok(Command::Cat(rest.to_owned())),
                        Keyword::Cd => Ok(Command::Cd(Some(rest.to_owned()))),
                        Keyword::Echo => Ok(Command::Echo(rest.to_owned())),
                        Keyword::Ls => Ok(Command::Ls(Some(rest.to_owned()))),
                        _ => Err(LineError::Usage(k)),
                    },
                },
            }
        },
    }
}

} // verus!
