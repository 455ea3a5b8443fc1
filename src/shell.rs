//! What each line does: the step a command asks of the world, the effect it
//! has, and how the session carries the working directory from line to line.

use vstd::prelude::*;
use vstd::string::*;
use vstd::utf8::encode_utf8;
use vstd::slice::slice_to_vec;
use crate::text::{rsplit_once, split_last};
use crate::quoting::{unquote, unquoted};
use crate::workdir::{WorkingDir, adjoined, resolved};
use crate::command::{
    Keyword, LineError, Command, CommandView, parse_line, parsed, all_keywords,
};

verus! {

/// The parts of `parts` with `sep` between each two.
pub open spec fn joined(parts: Seq<Seq<char>>, sep: Seq<char>) -> Seq<char>
    decreases parts.len(),
{
    if parts.len() == 0 {
        Seq::empty()
    } else if parts.len() == 1 {
        parts[0]
    } else {
        joined(parts.drop_last(), sep) + sep + parts.last()
    }
}

/// The text of each string.
pub open spec fn texts(parts: Seq<String>) -> Seq<Seq<char>> {
    parts.map_values(|p: String| p@)
}

/// The strings of `parts` with `sep` between each two.
pub fn join_words(parts: &Vec<String>, sep: &str) -> (r: String)
    ensures
        r@ == joined(texts(parts@), sep@),
{
    let mut out = String::new();
    let mut i: usize = 0;
    while i < parts.len()
        invariant
            i <= parts.len(),
            out@ == joined(texts(parts@).take(i as int), sep@),
        decreases parts.len() - i,
    {
        let ghost before = texts(parts@).take(i as int);
        if i > 0 {
            out.append(sep);
        }
        out.append(parts[i].as_str());
        proof {
            let after = texts(parts@).take(i + 1);
            assert(after.drop_last() =~= before);
            if i == 0 {
                assert(before =~= Seq::<Seq<char>>::empty());
            }
        }
        i += 1;
    }
    assert(texts(parts@).take(parts.len() as int) =~= texts(parts@));
    out
}

/// The UTF-8 encoding of `s`.
pub fn text_bytes(s: &str) -> (r: Vec<u8>)
    ensures
        r@ == encode_utf8(s@),
{
    slice_to_vec(s.as_bytes())
}

/// What one line does once it has been carried out.
pub struct Effect {
    /// The directory to move to.
    pub dir: Option<WorkingDir>,
    /// What to print on standard output.
    pub out: Option<Vec<u8>>,
    /// The code to end the session with.
    pub exit: Option<i32>,
}

/// An effect, as plain values.
pub struct EffectView {
    pub dir: Option<Seq<char>>,
    pub out: Option<Seq<u8>>,
    pub exit: Option<i32>,
}

impl View for Effect {
    type V = EffectView;

    open spec fn view(&self) -> EffectView {
        EffectView {
            dir: match self.dir {
                Some(d) => Some(d@),
                None => None,
            },
            out: match self.out {
                Some(o) => Some(o@),
                None => None,
            },
            exit: self.exit,
        }
    }
}

/// No visible effect.
pub open spec fn quiet() -> EffectView {
    EffectView { dir: None, out: None, exit: None }
}

/// Only output.
pub open spec fn printing(out: Seq<u8>) -> EffectView {
    EffectView { dir: None, out: Some(out), exit: None }
}

impl Effect {
    /// No visible effect.
    pub fn none() -> (r: Effect)
        ensures
            r@ == quiet(),
    {
        Effect { dir: None, out: None, exit: None }
    }

    /// Prints `out`.
    pub fn output(out: Vec<u8>) -> (r: Effect)
        ensures
            r@ == printing(out@),
    {
        Effect { dir: None, out: Some(out), exit: None }
    }

    /// Moves to `dir`.
    pub fn enter(dir: WorkingDir) -> (r: Effect)
        ensures
            r@ == (EffectView { dir: Some(dir@), out: None, exit: None }),
    {
        Effect { dir: Some(dir), out: None, exit: None }
    }
}

/// The text that `help` prints.
pub open spec fn help_text() -> Seq<char> {
    "Available commands: "@ + joined(all_keywords().map_values(|k: Keyword| k.spec_name()), ", "@)
}

/// The effect of `exit`: end the session with code 0.
pub fn exit() -> (r: Effect)
    ensures
        r@ == (EffectView { dir: None, out: None, exit: Some(0) }),
{
    Effect { dir: None, out: None, exit: Some(0) }
}

/// The list of commands, in a fixed order.
pub fn help() -> (r: Vec<u8>)
    ensures
        r@ == encode_utf8(help_text()),
{
    let names: Vec<String> = vec![
        Keyword::Accept.name().to_owned(),
        Keyword::Cat.name().to_owned(),
        Keyword::Cd.name().to_owned(),
        Keyword::Help.name().to_owned(),
        Keyword::Echo.name().to_owned(),
        Keyword::Exit.name().to_owned(),
        Keyword::Ls.name().to_owned(),
        Keyword::Pwd.name().to_owned(),
    ];
    assert(texts(names@) =~= all_keywords().map_values(|k: Keyword| k.spec_name()));
    let mut text = String::from_str("Available commands: ");
    let list = join_words(&names, ", ");
    text.append(list.as_str());
    text_bytes(text.as_str())
}

/// What `pwd` prints: the path of the working directory.
pub fn pwd(dir: &WorkingDir) -> (r: Vec<u8>)
    ensures
        r@ == encode_utf8(dir@),
{
    text_bytes(dir.as_str())
}

/// What `ls` prints for the names of the entries found: the names with a
/// single space between each two, in the order given.
pub fn listing(names: &Vec<String>) -> (r: Vec<u8>)
    ensures
        r@ == encode_utf8(joined(texts(names@), " "@)),
{
    let text = join_words(names, " ");
    text_bytes(text.as_str())
}

/// The prompt shown before each line is read.
pub open spec fn prompt_text(dir: Seq<char>) -> Seq<char> {
    dir + " $ "@
}

/// The prompt shown before each line is read.
pub fn prompt(dir: &WorkingDir) -> (r: String)
    ensures
        r@ == prompt_text(dir@),
{
    let mut p = dir.to_string();
    p.append(" $ ");
    p
}

/// The file whose socket capability `accept` listens on.
pub fn accept(dir: &WorkingDir, path: &str) -> (r: String)
    ensures
        r@ == adjoined(dir@, unquoted(path@)),
{
    dir.join(unquote(path))
}

/// The file that `cat` reads.
pub fn cat(dir: &WorkingDir, path: &str) -> (r: String)
    ensures
        r@ == adjoined(dir@, unquoted(path@)),
{
    dir.join(unquote(path))
}

/// The directory that `cd` moves to, before it is checked to exist.
pub fn cd(dir: &WorkingDir, path: &str) -> (r: String)
    ensures
        r@ == resolved(dir@, unquoted(path@)),
{
    dir.resolve(unquote(path))
}

/// The text and the file of `echo`: the argument split at its last `>`, each
/// side unquoted, the file joined onto the working directory.
pub fn echo(dir: &WorkingDir, args: &str) -> (r: Result<(String, String), LineError>)
    ensures
        match split_last(args@, '>') {
            None => r == Err::<(String, String), LineError>(LineError::NoRedirect),
            Some((t, p)) => r is Ok && r->Ok_0.0@ == unquoted(t) && r->Ok_0.1@ == adjoined(
                dir@,
                unquoted(p),
            ),
        },
{
    match rsplit_once(args, '>') {
        None => Err(LineError::NoRedirect),
        Some((text, path)) => Ok((unquote(text).to_owned(), dir.join(unquote(path)))),
    }
}

/// The directory that `ls` lists: the working directory, or the argument
/// joined onto it.
pub fn ls(dir: &WorkingDir, path: Option<&str>) -> (r: String)
    ensures
        match path {
            None => r@ == dir@,
            Some(p) => r@ == adjoined(dir@, unquoted(p@)),
        },
{
    match path {
        None => dir.to_string(),
        Some(p) => dir.join(unquote(p)),
    }
}

/// What a line asks for: an effect it has already, or work on the file system
/// or a socket whose result makes the effect.
pub enum Step {
    /// Nothing to do but this effect.
    Done(Effect),
    /// Listen on the capability behind the file, accept one connection and
    /// print all that the peer sends before it closes its side.
    Accept(String),
    /// Print the contents of the file.
    Read(String),
    /// Move to the directory once it is found to exist.
    Enter(String),
    /// Replace the contents of the file by the text.
    Write { text: String, path: String },
    /// Print the names of the directory's entries.
    List(String),
}

/// A step, as plain values.
pub enum StepView {
    Done(EffectView),
    Accept(Seq<char>),
    Read(Seq<char>),
    Enter(Seq<char>),
    Write { text: Seq<char>, path: Seq<char> },
    List(Seq<char>),
}

impl View for Step {
    type V = StepView;

    open spec fn view(&self) -> StepView {
        match self {
            Step::Done(e) => StepView::Done(e@),
            Step::Accept(p) => StepView::Accept(p@),
            Step::Read(p) => StepView::Read(p@),
            Step::Enter(p) => StepView::Enter(p@),
            Step::Write { text, path } => StepView::Write { text: text@, path: path@ },
            Step::List(p) => StepView::List(p@),
        }
    }
}

/// The step a parsed command asks for in `dir`.
pub open spec fn step_of(dir: Seq<char>, c: CommandView) -> Result<StepView, LineError> {
    match c {
        CommandView::Blank => Ok(StepView::Done(quiet())),
        CommandView::Accept(a) => Ok(StepView::Accept(adjoined(dir, unquoted(a)))),
        CommandView::Cat(a) => Ok(StepView::Read(adjoined(dir, unquoted(a)))),
        CommandView::Cd(None) => Ok(StepView::Done(quiet())),
        CommandView::Cd(Some(a)) => Ok(StepView::Enter(resolved(dir, unquoted(a)))),
        CommandView::Echo(a) => match split_last(a, '>') {
            None => Err(LineError::NoRedirect),
            Some((t, p)) => Ok(
                StepView::Write { text: unquoted(t), path: adjoined(dir, unquoted(p)) },
            ),
        },
        CommandView::Exit => Ok(StepView::Done(EffectView { dir: None, out: None, exit: Some(0) })),
        CommandView::Help => Ok(StepView::Done(printing(encode_utf8(help_text())))),
        CommandView::Ls(None) => Ok(StepView::List(dir)),
        CommandView::Ls(Some(a)) => Ok(StepView::List(adjoined(dir, unquoted(a)))),
        CommandView::Pwd => Ok(StepView::Done(printing(encode_utf8(dir)))),
    }
}

/// The step that `line` asks for in `dir`.
pub open spec fn planned(dir: Seq<char>, line: Seq<char>) -> Result<StepView, LineError> {
    match parsed(line) {
        Ok(c) => step_of(dir, c),
        Err(e) => Err(e),
    }
}

/// A step or an error, as plain values.
pub open spec fn step_view(r: Result<Step, LineError>) -> Result<StepView, LineError> {
    match r {
        Ok(s) => Ok(s@),
        Err(e) => Err(e),
    }
}

/// Interprets one line in `dir`: the step it asks for, or why it is no
/// command.
pub fn handle(dir: &WorkingDir, line: &str) -> (r: Result<Step, LineError>)
    ensures
        step_view(r) == planned(dir@, line@),
{
    let command = match parse_line(line) {
        Ok(c) => c,
        Err(e) => return Err(e),
    };
    match command {
        Command::Blank => Ok(Step::Done(Effect::none())),
        Command::Accept(a) => Ok(Step::Accept(accept(dir, a.as_str()))),
        Command::Cat(a) => Ok(Step::Read(cat(dir, a.as_str()))),
        Command::Cd(None) => Ok(Step::Done(Effect::none())),
        Command::Cd(Some(a)) => Ok(Step::Enter(cd(dir, a.as_str()))),
        Command::Echo(a) => match echo(dir, a.as_str()) {
            Ok((text, path)) => Ok(Step::Write { text, path }),
            Err(e) => Err(e),
        },
        Command::Exit => Ok(Step::Done(exit())),
        Command::Help => Ok(Step::Done(Effect::output(help()))),
        Command::Ls(None) => Ok(Step::List(ls(dir, None))),
        Command::Ls(Some(a)) => Ok(Step::List(ls(dir, Some(a.as_str())))),
        Command::Pwd => Ok(Step::Done(Effect::output(pwd(dir)))),
    }
}

} // verus!
