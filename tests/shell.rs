use wash::command::{parse_line, Command, Keyword, LineError};
use wash::quoting::{strip_surround, unquote};
use wash::session::{react, ShellError, Stage};
use wash::shell::{exit, handle, help, listing, prompt, pwd, Effect, Step};
use wash::workdir::WorkingDir;

fn root() -> WorkingDir {
    WorkingDir::new("/root".to_string()).unwrap()
}

fn step(line: &str) -> Result<Step, LineError> {
    handle(&root(), line)
}

#[test]
fn unquote_peels_nested_alternating_quotes() {
    assert_eq!(unquote("  \"'a'\"  "), "a");
}

#[test]
fn unquote_single_then_double() {
    assert_eq!(unquote("'\"b c\"'"), "b c");
    assert_eq!(unquote("\" ' x ' \""), "x");
}

#[test]
fn unquote_leaves_one_sided_quotes() {
    assert_eq!(unquote("  \"a  "), "\"a");
    assert_eq!(unquote("a'"), "a'");
    assert_eq!(unquote("\"a'"), "\"a'");
    assert_eq!(unquote("\""), "\"");
}

#[test]
fn unquote_keeps_inner_quotes() {
    assert_eq!(unquote("it's \"here\" now"), "it's \"here\" now");
    assert_eq!(unquote("\"\""), "");
    assert_eq!(unquote(""), "");
}

#[test]
fn unquote_is_idempotent_on_examples() {
    for s in ["  \"'a'\"  ", "\"a", "' x '", "\"\"\"\"", "a b", "\t'\"'\"'\n"] {
        let once = unquote(s);
        assert_eq!(unquote(once), once);
    }
}

#[test]
fn strip_surround_needs_both_ends() {
    assert_eq!(strip_surround("\"x\"", '"'), Some("x"));
    assert_eq!(strip_surround("'x'", '"'), None);
    assert_eq!(strip_surround("\"", '"'), None);
    assert_eq!(strip_surround("\"\"", '"'), Some(""));
    assert_eq!(strip_surround("\"x", '"'), None);
}

#[test]
fn blank_lines_do_nothing() {
    assert!(matches!(parse_line(""), Ok(Command::Blank)));
    assert!(matches!(parse_line("   \t "), Ok(Command::Blank)));
    match step("  ") {
        Ok(Step::Done(e)) => assert!(e.dir.is_none() && e.out.is_none() && e.exit.is_none()),
        _ => panic!("blank line must be a quiet success"),
    }
}

#[test]
fn line_must_start_alphanumeric() {
    assert_eq!(parse_line("#ls").err(), Some(LineError::BadStart));
    assert_eq!(
        LineError::BadStart.message(),
        "line must start with an alphanumeric character or whitespace"
    );
}

#[test]
fn unknown_keyword_is_a_parse_failure() {
    assert_eq!(parse_line("frobnicate").err(), Some(LineError::Unknown));
    assert_eq!(parse_line("frobnicate now").err(), Some(LineError::Unknown));
    assert_eq!(LineError::Unknown.message(), "failed to parse line");
    let d = root();
    let r = react(d, Err(ShellError::Line(LineError::Unknown)));
    assert_eq!(r.dir.as_str(), "/root");
    assert_eq!(r.stderr, "Error: failed to parse line\n/root $ ");
    assert!(r.stdout.is_none());
    assert!(r.exit.is_none());
}

#[test]
fn disallowed_argument_gives_usage() {
    assert_eq!(parse_line("pwd extra").err(), Some(LineError::Usage(Keyword::Pwd)));
    assert_eq!(LineError::Usage(Keyword::Pwd).message(), "Usage: pwd");
    assert_eq!(parse_line("exit now").err(), Some(LineError::Usage(Keyword::Exit)));
    assert_eq!(LineError::Usage(Keyword::Exit).message(), "Usage: exit");
    assert_eq!(parse_line("help me").err(), Some(LineError::Usage(Keyword::Help)));
    assert_eq!(LineError::Usage(Keyword::Help).message(), "Usage: help");
}

#[test]
fn missing_argument_gives_usage() {
    assert_eq!(parse_line("accept").err(), Some(LineError::Usage(Keyword::Accept)));
    assert_eq!(LineError::Usage(Keyword::Accept).message(), "Usage: accept FILE");
    assert_eq!(parse_line("cat").err(), Some(LineError::Usage(Keyword::Cat)));
    assert_eq!(LineError::Usage(Keyword::Cat).message(), "Usage: cat FILE");
    assert_eq!(parse_line(" echo ").err(), Some(LineError::Usage(Keyword::Echo)));
    assert_eq!(
        LineError::Usage(Keyword::Echo).message(),
        "Usage: echo [WORD|\"TEXT\"|'TEXT'] > FILE"
    );
}

#[test]
fn parse_splits_on_first_space() {
    match parse_line("  cat  'a b'  ") {
        Ok(Command::Cat(rest)) => assert_eq!(rest, " 'a b'"),
        _ => panic!("expected cat"),
    }
    assert!(matches!(parse_line("ls"), Ok(Command::Ls(None))));
    assert!(matches!(parse_line("cd"), Ok(Command::Cd(None))));
    assert!(matches!(parse_line("exit"), Ok(Command::Exit)));
    assert!(matches!(parse_line("help"), Ok(Command::Help)));
    assert!(matches!(parse_line("pwd"), Ok(Command::Pwd)));
}

#[test]
fn bare_cd_changes_nothing() {
    match step("cd") {
        Ok(Step::Done(e)) => assert!(e.dir.is_none() && e.out.is_none() && e.exit.is_none()),
        _ => panic!("bare cd must be a quiet success"),
    }
    let r = react(root(), Ok(Effect::none()));
    assert_eq!(r.dir.as_str(), "/root");
    assert_eq!(r.stderr, "/root $ ");
}

#[test]
fn cd_resolves_relative_and_absolute() {
    match step("cd sub") {
        Ok(Step::Enter(p)) => assert_eq!(p, "/root/sub"),
        _ => panic!("expected enter"),
    }
    match step("cd \"/etc\"") {
        Ok(Step::Enter(p)) => assert_eq!(p, "/etc"),
        _ => panic!("expected enter"),
    }
}

#[test]
fn pwd_after_cd_reports_new_dir() {
    let next = WorkingDir::new("/root/sub".to_string()).unwrap();
    let r = react(root(), Ok(Effect::enter(next)));
    assert_eq!(r.dir.as_str(), "/root/sub");
    assert_eq!(r.stderr, "/root/sub $ ");
    assert_eq!(pwd(&r.dir), b"/root/sub".to_vec());
    let failed = react(
        r.dir,
        Err(ShellError::Io {
            stage: Stage::Open,
            path: "/root/sub/missing".to_string(),
            cause: "No such file or directory".to_string(),
        }),
    );
    assert_eq!(failed.dir.as_str(), "/root/sub");
    assert_eq!(
        failed.stderr,
        "Error: failed to open `/root/sub/missing`: No such file or directory\n/root/sub $ "
    );
}

#[test]
fn working_dir_must_be_absolute() {
    assert!(WorkingDir::new("relative".to_string()).is_none());
    assert!(WorkingDir::new(String::new()).is_none());
    assert_eq!(WorkingDir::new("/".to_string()).unwrap().to_string(), "/");
}

#[test]
fn cat_and_accept_join_onto_dir() {
    match step("cat 'notes.txt'") {
        Ok(Step::Read(p)) => assert_eq!(p, "/root/notes.txt"),
        _ => panic!("expected read"),
    }
    match step("accept sock") {
        Ok(Step::Accept(p)) => assert_eq!(p, "/root/sock"),
        _ => panic!("expected accept"),
    }
}

#[test]
fn echo_splits_on_last_redirect() {
    match step("echo \"a > b\" > out.txt") {
        Ok(Step::Write { text, path }) => {
            assert_eq!(text, "a > b");
            assert_eq!(path, "/root/out.txt");
        }
        _ => panic!("expected write"),
    }
    match step("echo text > file") {
        Ok(Step::Write { text, path }) => {
            assert_eq!(text, "text");
            assert_eq!(path, "/root/file");
        }
        _ => panic!("expected write"),
    }
}

#[test]
fn echo_then_cat_target_same_file() {
    let w = match step("echo other > 'f'") {
        Ok(Step::Write { path, .. }) => path,
        _ => panic!("expected write"),
    };
    let r = match step("cat f") {
        Ok(Step::Read(path)) => path,
        _ => panic!("expected read"),
    };
    assert_eq!(w, r);
}

#[test]
fn echo_without_redirect_fails() {
    assert_eq!(step("echo hello").err(), Some(LineError::NoRedirect));
    assert_eq!(LineError::NoRedirect.message(), "missing `>`");
}

#[test]
fn ls_lists_dir_or_argument() {
    match step("ls") {
        Ok(Step::List(p)) => assert_eq!(p, "/root"),
        _ => panic!("expected list"),
    }
    match step("ls ' sub '") {
        Ok(Step::List(p)) => assert_eq!(p, "/root/sub"),
        _ => panic!("expected list"),
    }
}

#[test]
fn listing_joins_names_with_spaces() {
    let names = vec!["a".to_string(), "b".to_string(), "c".to_string()];
    let out = listing(&names);
    assert_eq!(out, b"a b c".to_vec());
    let text = String::from_utf8(out).unwrap();
    let mut got: Vec<&str> = text.split(' ').collect();
    got.sort();
    assert_eq!(got, vec!["a", "b", "c"]);
    assert_eq!(listing(&Vec::new()), Vec::<u8>::new());
    assert_eq!(listing(&vec!["only".to_string()]), b"only".to_vec());
}

#[test]
fn help_lists_commands_in_order() {
    assert_eq!(
        help(),
        b"Available commands: accept, cat, cd, help, echo, exit, ls, pwd".to_vec()
    );
    match step("help") {
        Ok(Step::Done(e)) => assert_eq!(e.out, Some(help())),
        _ => panic!("expected help output"),
    }
}

#[test]
fn exit_ends_with_code_zero() {
    assert_eq!(exit().exit, Some(0));
    let e = match step("exit") {
        Ok(Step::Done(e)) => e,
        _ => panic!("expected exit"),
    };
    assert_eq!(e.exit, Some(0));
    assert!(e.out.is_none() && e.dir.is_none());
    let r = react(root(), Ok(e));
    assert_eq!(r.exit, Some(0));
}

#[test]
fn pwd_prints_dir() {
    match step("pwd") {
        Ok(Step::Done(e)) => assert_eq!(e.out, Some(b"/root".to_vec())),
        _ => panic!("expected pwd output"),
    }
}

#[test]
fn output_gets_one_newline() {
    let r = react(root(), Ok(Effect::output(b"peer bytes".to_vec())));
    assert_eq!(r.stdout, Some(b"peer bytes\n".to_vec()));
    assert_eq!(r.stderr, "/root $ ");
}

#[test]
fn prompt_shows_dir() {
    assert_eq!(prompt(&root()), "/root $ ");
}

#[test]
fn io_error_message_names_stage_and_path() {
    let e = ShellError::Io {
        stage: Stage::Accept,
        path: "/sock".to_string(),
        cause: "refused".to_string(),
    };
    assert_eq!(e.message(), "failed to accept connection on `/sock`: refused");
}
