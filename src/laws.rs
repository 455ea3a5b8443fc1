//! Laws of the shell that relate its parts to each other.

use vstd::prelude::*;
use vstd::utf8::encode_utf8;
use crate::text::{trimmed, split_first, split_last, alnum, white};
use crate::quoting::{unquoted, lemma_trimmed_fixed};
use crate::workdir::{WorkingDir, adjoined, resolved};
use crate::command::{Keyword, LineError, CommandView, keyword_of, parsed};
use crate::shell::{Effect, EffectView, StepView, step_of, planned, quiet, printing, joined};
use crate::session::{ShellError, next_dir, exit_code};

verus! {

/// A text without `d` holds nothing to split at.
proof fn lemma_split_first_none(s: Seq<char>, d: char)
    requires
        !s.contains(d),
    ensures
        split_first(s, d) is None,
    decreases s.len(),
{
    if s.len() > 0 {
        assert(!s.drop_first().contains(d)) by {
            if s.drop_first().contains(d) {
                let i = choose|i: int| 0 <= i < s.drop_first().len() && s.drop_first()[i] == d;
                assert(s[i + 1] == d);
            }
        }
        assert(s[0] != d) by {
            if s[0] == d {
                assert(s.contains(d));
            }
        }
        lemma_split_first_none(s.drop_first(), d);
    }
}

/// A text is split at its first `d`.
proof fn lemma_split_first_at(a: Seq<char>, b: Seq<char>, d: char)
    requires
        !a.contains(d),
    ensures
        split_first(a + seq![d] + b, d) == Some((a, b)),
    decreases a.len(),
{
    let s = a + seq![d] + b;
    if a.len() == 0 {
        assert(s[0] == d);
        assert(s.drop_first() =~= b);
    } else {
        assert(a[0] != d) by {
            if a[0] == d {
                assert(a.contains(d));
            }
        }
        assert(!a.drop_first().contains(d)) by {
            if a.drop_first().contains(d) {
                let i = choose|i: int| 0 <= i < a.drop_first().len() && a.drop_first()[i] == d;
                assert(a[i + 1] == d);
            }
        }
        lemma_split_first_at(a.drop_first(), b, d);
        assert(s.drop_first() =~= a.drop_first() + seq![d] + b);
        assert(seq![a[0]] + a.drop_first() =~= a);
    }
}

/// A text is split at its last `d`.
proof fn lemma_split_last_at(a: Seq<char>, b: Seq<char>, d: char)
    requires
        !b.contains(d),
    ensures
        split_last(a + seq![d] + b, d) == Some((a, b)),
    decreases b.len(),
{
    let s = a + seq![d] + b;
    if b.len() == 0 {
        assert(s.drop_last() =~= a);
    } else {
        assert(b.last() != d) by {
            if b.last() == d {
                assert(b.contains(d));
            }
        }
        assert(!b.drop_last().contains(d)) by {
            if b.drop_last().contains(d) {
                let i = choose|i: int| 0 <= i < b.drop_last().len() && b.drop_last()[i] == d;
                assert(b[i] == d);
            }
        }
        lemma_split_last_at(a, b.drop_last(), d);
        assert(s.drop_last() =~= a + seq![d] + b.drop_last());
        assert(b.drop_last().push(b.last()) =~= b);
    }
}

/// A word standing alone on its line, as the parser sees it.
proof fn lemma_alone(line: Seq<char>, word: Seq<char>)
    requires
        trimmed(line) == word,
        word.len() > 0,
        !white(word[0]),
        !white(word.last()),
        !word.contains(' '),
    ensures
        split_first(trimmed(line), ' ') is None,
{
    lemma_split_first_none(word, ' ');
}

/// `cd` with no argument stays where it is and never fails.
pub proof fn bare_cd_stays(dir: WorkingDir, line: Seq<char>)
    requires
        trimmed(line) == "cd"@,
    ensures
        planned(dir@, line) == Ok::<StepView, LineError>(StepView::Done(quiet())),
        next_dir(dir@, Ok(Effect { dir: None, out: None, exit: None })) == dir@,
{
    reveal_strlit("cd");
    reveal_strlit("accept");
    reveal_strlit("cat");
    lemma_alone(line, "cd"@);
    assert(keyword_of("cd"@) == Some(Keyword::Cd));
}

/// `exit` alone on its line asks to end the session with code 0, and the
/// session ends with that code.
pub proof fn exit_ends_session(dir: WorkingDir, line: Seq<char>, e: Effect)
    requires
        trimmed(line) == "exit"@,
        e@ == (EffectView { dir: None, out: None, exit: Some(0) }),
    ensures
        planned(dir@, line) == Ok::<StepView, LineError>(StepView::Done(e@)),
        exit_code(Ok(e)) == Some(0i32),
{
    reveal_strlit("exit");
    reveal_strlit("accept");
    reveal_strlit("cat");
    reveal_strlit("cd");
    reveal_strlit("help");
    reveal_strlit("echo");
    lemma_alone(line, "exit"@);
    assert("exit"@[1] != "echo"@[1]);
    assert("exit"@[0] != "help"@[0]);
    assert(keyword_of("exit"@) == Some(Keyword::Exit));
}

/// After a move to `entered`, `pwd` prints the path of `entered`; after a
/// failed line the shell stands where it stood.
pub proof fn pwd_after_cd(dir: WorkingDir, arg: Seq<char>, entered: WorkingDir, failure: ShellError)
    ensures
        step_of(dir@, CommandView::Cd(Some(arg))) == Ok::<StepView, LineError>(
            StepView::Enter(resolved(dir@, unquoted(arg))),
        ),
        next_dir(dir@, Ok(Effect { dir: Some(entered), out: None, exit: None })) == entered@,
        planned(entered@, "pwd"@) == Ok::<StepView, LineError>(
            StepView::Done(printing(encode_utf8(entered@))),
        ),
        next_dir(dir@, Err(failure)) == dir@,
{
    reveal_strlit("pwd");
    reveal_strlit("accept");
    reveal_strlit("cat");
    reveal_strlit("cd");
    reveal_strlit("help");
    reveal_strlit("echo");
    reveal_strlit("exit");
    reveal_strlit("ls");
    lemma_trimmed_fixed("pwd"@);
    lemma_alone("pwd"@, "pwd"@);
    assert(keyword_of("pwd"@) == Some(Keyword::Pwd));
}

/// A first word that names no command fails the line as unparsable, and a
/// failed line leaves the shell where it stood.
pub proof fn unknown_word_fails(
    dir: WorkingDir,
    line: Seq<char>,
    word: Seq<char>,
    rest: Seq<char>,
    failure: ShellError,
)
    requires
        trimmed(line) == word || trimmed(line) == word + seq![' '] + rest,
        word.len() > 0,
        alnum(word[0]),
        !word.contains(' '),
        keyword_of(word) is None,
    ensures
        planned(dir@, line) == Err::<StepView, LineError>(LineError::Unknown),
        next_dir(dir@, Err(failure)) == dir@,
{
    let t = trimmed(line);
    if t == word {
        lemma_split_first_none(word, ' ');
    } else {
        lemma_split_first_at(word, rest, ' ');
        assert(t[0] == word[0]);
    }
}

/// `exit`, `help` and `pwd` given an argument fail with their usage line.
pub proof fn argument_to_bare_command_fails(dir: WorkingDir, k: Keyword, line: Seq<char>, rest: Seq<char>)
    requires
        k == Keyword::Exit || k == Keyword::Help || k == Keyword::Pwd,
        trimmed(line) == k.spec_name() + seq![' '] + rest,
    ensures
        planned(dir@, line) == Err::<StepView, LineError>(LineError::Usage(k)),
        LineError::Usage(k).spec_message() == k.spec_usage()->0,
{
    reveal_strlit("pwd");
    reveal_strlit("accept");
    reveal_strlit("cat");
    reveal_strlit("cd");
    reveal_strlit("help");
    reveal_strlit("echo");
    reveal_strlit("exit");
    reveal_strlit("ls");
    let w = k.spec_name();
    assert(!w.contains(' ')) by {
        if w.contains(' ') {
            let i = choose|i: int| 0 <= i < w.len() && w[i] == ' ';
        }
    }
    lemma_split_first_at(w, rest, ' ');
    assert(trimmed(line)[0] == w[0]);
    assert("exit"@[1] != "echo"@[1]);
    assert("exit"@[0] != "help"@[0]);
    assert("help"@[0] != "echo"@[0]);
    assert("pwd"@[0] != "cat"@[0]);
    assert(keyword_of(w) == Some(k));
}

/// `echo TEXT > FILE` writes the unquoted text to the very file that
/// `cat FILE` reads, and what it writes replaces the file's contents.
pub proof fn echo_then_cat_same_file(dir: Seq<char>, text: Seq<char>, file: Seq<char>)
    requires
        !file.contains('>'),
    ensures
        step_of(dir, CommandView::Echo(text + seq!['>'] + file)) == Ok::<StepView, LineError>(
            StepView::Write { text: unquoted(text), path: adjoined(dir, unquoted(file)) },
        ),
        step_of(dir, CommandView::Cat(file)) == Ok::<StepView, LineError>(
            StepView::Read(adjoined(dir, unquoted(file))),
        ),
{
    lemma_split_last_at(text, file, '>');
}

/// The space-separated words of `s`, empty ones included.
pub open spec fn words(s: Seq<char>) -> Seq<Seq<char>>
    decreases s.len(),
{
    match split_first(s, ' ') {
        None => seq![s],
        Some((a, b)) => if b.len() < s.len() {
            seq![a] + words(b)
        } else {
            Seq::empty()
        },
    }
}

/// Joining peels off the first part as well as the last.
proof fn lemma_joined_first(parts: Seq<Seq<char>>, sep: Seq<char>)
    requires
        parts.len() >= 2,
    ensures
        joined(parts, sep) == parts[0] + sep + joined(parts.drop_first(), sep),
    decreases parts.len(),
{
    let rest = parts.drop_first();
    if parts.len() == 2 {
        assert(parts.drop_last() =~= seq![parts[0]]);
        assert(rest =~= seq![parts[1]]);
        assert(joined(parts.drop_last(), sep) == parts[0]);
        assert(joined(rest, sep) == parts[1]);
    } else {
        lemma_joined_first(parts.drop_last(), sep);
        assert(parts.drop_last().drop_first() =~= rest.drop_last());
        assert(parts.drop_last()[0] == parts[0]);
        assert(rest.last() == parts.last());
        assert(joined(rest, sep) == joined(rest.drop_last(), sep) + sep + rest.last());
        assert(joined(parts, sep) =~= parts[0] + sep + joined(rest, sep));
    }
}

/// What `ls` prints, read back word by word, gives the entry names it was
/// given, each of them once and in the same order, when no name holds a
/// space and there is at least one.
pub proof fn listing_reads_back(names: Seq<Seq<char>>)
    requires
        names.len() > 0,
        forall|i: int| 0 <= i < names.len() ==> !(#[trigger] names[i]).contains(' '),
    ensures
        words(joined(names, " "@)) == names,
        words(joined(names, " "@)).to_set() == names.to_set(),
    decreases names.len(),
{
    reveal_strlit(" ");
    assert(" "@ =~= seq![' ']);
    if names.len() == 1 {
        lemma_split_first_none(names[0], ' ');
        assert(seq![names[0]] =~= names);
    } else {
        let rest = names.drop_first();
        lemma_joined_first(names, " "@);
        listing_reads_back(rest);
        lemma_split_first_at(names[0], joined(rest, " "@), ' ');
        assert(seq![names[0]] + rest =~= names);
    }
}

} // verus!
