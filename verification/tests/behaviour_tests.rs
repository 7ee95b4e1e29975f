use cli_rs::arg::Arg;
use cli_rs::cli_error::{CliResult, ErrorKind};
use cli_rs::command::{Command, CompletionMode, Handler};
use cli_rs::completion::CompOut;
use cli_rs::flag::Flag;
use cli_rs::input::{Completor, Input, InputType};
use cli_rs::parser::Reply;
use cli_rs::request::{encode, parse_index, split_at, unquote};
use cli_rs::symbol::Symbol;
use cli_rs::value::{parse_i32, Value, ValueKind};

struct Call<F>(F);

impl<F: FnMut(&Vec<Symbol<'_>>) -> CliResult<()>> Handler for Call<F> {
    fn call(&mut self, inputs: &Vec<Symbol<'_>>) -> CliResult<()> {
        (self.0)(inputs)
    }
}

struct Fixed(Vec<&'static str>);

impl Completor for Fixed {
    fn suggest(&mut self, _partial: &str) -> CliResult<Vec<String>> {
        Ok(self.0.iter().map(|s| s.to_string()).collect())
    }
}

fn tokens(words: &[&str]) -> Vec<String> {
    words.iter().map(|w| w.to_string()).collect()
}

fn names(list: &[CompOut]) -> Vec<String> {
    list.iter().map(|c| c.name.clone()).collect()
}

fn edit<'a>(seen: &'a mut Vec<(String, bool)>) -> Command<'a> {
    Command::name("edit")
        .input(Arg::str("name"))
        .input(Flag::bool("create"))
        .handler(Call(move |inputs: &Vec<Symbol<'_>>| {
            let name = match inputs[0].get() {
                Some(Value::Str(s)) => s,
                other => panic!("unexpected {:?}", other),
            };
            let create = matches!(inputs[1].get(), Some(Value::Bool(true)));
            seen.push((name, create));
            Ok(())
        }))
}

#[test]
fn argument_and_flag_reach_the_handler() {
    let mut seen = Vec::new();
    let reply = edit(&mut seen).parse_args(&tokens(&["todo.md", "--create"])).unwrap();
    assert!(matches!(reply, Reply::Done));
    assert_eq!(seen, vec![("todo.md".to_string(), true)]);
}

#[test]
fn absent_flag_reads_false() {
    let mut seen = Vec::new();
    edit(&mut seen).parse_args(&tokens(&["todo.md"])).unwrap();
    assert_eq!(seen, vec![("todo.md".to_string(), false)]);
}

#[test]
fn no_tokens_names_the_missing_argument() {
    let mut seen = Vec::new();
    let err = edit(&mut seen).parse_args(&[]).unwrap_err();
    assert_eq!(err.kind, ErrorKind::MissingRequiredArgument);
    assert_eq!(err.status, 2);
    assert!(err.msg.starts_with("Missing required argument: name\n\n"));
    assert!(err.msg.contains("USAGE:"));
    assert!(seen.is_empty());
}

#[test]
fn first_token_selects_the_subcommand() {
    let mut path = String::new();
    Command::name("root")
        .subcommand(Command::name("new").input(Arg::str("path")).handler(Call(
            |inputs: &Vec<Symbol<'_>>| {
                if let Some(Value::Str(s)) = inputs[0].get() {
                    path = s;
                }
                Ok(())
            },
        )))
        .parse_args(&tokens(&["new", "a.md"]))
        .unwrap();
    assert_eq!(path, "a.md");

    let mut called = false;
    let err = Command::name("root")
        .subcommand(Command::name("new").input(Arg::str("path")).handler(Call(
            |_: &Vec<Symbol<'_>>| {
                called = true;
                Ok(())
            },
        )))
        .parse_args(&tokens(&["newx", "a.md"]))
        .unwrap_err();
    assert_eq!(err.kind, ErrorKind::SubcommandNotFound);
    assert_eq!(err.msg, "newx is not a valid subcommand");
    assert_eq!(err.status, 5);
    assert!(!called);
}

#[test]
fn partial_flag_name_is_completed() {
    let mut cmd = Command::name("edit").input(Arg::str("name")).input(Flag::bool("create"));
    let found = cmd.complete_args(&tokens(&["--cre"])).unwrap();
    assert_eq!(names(&found), vec!["--create".to_string()]);
}

#[test]
fn first_declared_flag_takes_a_shared_alias() {
    let mut seen = Vec::new();
    Command::name("x")
        .input(Flag::bool("create"))
        .input(Flag::bool("copy"))
        .handler(Call(|inputs: &Vec<Symbol<'_>>| {
            seen.push((inputs[0].parsed(), inputs[1].parsed()));
            Ok(())
        }))
        .parse_args(&tokens(&["-c"]))
        .unwrap();
    assert_eq!(seen, vec![(true, false)]);

    let mut seen = Vec::new();
    Command::name("x")
        .input(Flag::bool("create"))
        .input(Flag::bool("copy"))
        .handler(Call(|inputs: &Vec<Symbol<'_>>| {
            seen.push((inputs[0].parsed(), inputs[1].parsed()));
            Ok(())
        }))
        .parse_args(&tokens(&["-c", "-C"]))
        .unwrap();
    assert_eq!(seen, vec![(true, true)]);
}

#[test]
fn success_means_required_arguments_are_parsed() {
    let mut cmd = Command::name("x")
        .input(Arg::str("a"))
        .input(Arg::i32("b").default(Value::Int(7)))
        .handler(Call(|_: &Vec<Symbol<'_>>| Ok(())));
    cmd.parse_args(&tokens(&["one"])).unwrap();
    assert!(cmd.symbols[0].parsed());
    assert!(!cmd.symbols[1].parsed());
    assert!(matches!(cmd.symbols[1].get(), Some(Value::Int(7))));
}

#[test]
fn every_error_kind_has_an_input() {
    let leaf = || Command::name("x").input(Arg::i32("n")).input(Flag::new("level", ValueKind::Int));
    let kind = |mut cmd: Command<'_>, words: &[&str]| cmd.parse_args(&tokens(words)).unwrap_err();

    let e = kind(leaf(), &["--help"]);
    assert_eq!((e.kind, e.status), (ErrorKind::HelpRequested, 1));
    let e = kind(leaf(), &[]);
    assert_eq!((e.kind, e.status), (ErrorKind::MissingRequiredArgument, 2));
    let e = kind(leaf(), &["--level=3"]);
    assert_eq!(e.kind, ErrorKind::MissingRequiredArgument);
    assert_eq!(e.msg, "Missing required argument: n");
    let e = kind(leaf(), &["1", "2"]);
    assert_eq!((e.kind, e.status), (ErrorKind::UnexpectedToken, 3));
    assert_eq!(e.msg, "Unexpected token found 2");
    let e = kind(leaf(), &["1", "--nope"]);
    assert_eq!((e.kind, e.status), (ErrorKind::UnexpectedFlagLikeToken, 4));
    assert_eq!(e.msg, "Unexpected flag-like token found --nope");
    let e = kind(leaf(), &["1", "--level"]);
    assert_eq!(e.kind, ErrorKind::UnexpectedFlagLikeToken);
    let e = kind(Command::name("r").subcommand(leaf()), &["y"]);
    assert_eq!((e.kind, e.status), (ErrorKind::SubcommandNotFound, 5));
    let e = kind(Command::name("r").subcommand(leaf()), &[]);
    assert_eq!(e.kind, ErrorKind::SubcommandNotFound);
    assert!(e.msg.contains("SUBCOMMANDS:"));
    let e = kind(leaf(), &["abc"]);
    assert_eq!((e.kind, e.status), (ErrorKind::ValueConversionFailure, 6));
    assert_eq!(e.msg, "abc cannot be parsed for n.");
    let e = kind(leaf(), &["1", "--level=high"]);
    assert_eq!(e.kind, ErrorKind::ValueConversionFailure);
    assert_eq!(e.msg, "high cannot be parsed for level");
    let e = kind(Command::name("r").subcommand(leaf()), &["x", "1"]);
    assert_eq!((e.kind, e.status), (ErrorKind::NoHandlerBound, 7));
    assert_eq!(e.msg, "No handler hooked up to r x");
}

#[test]
fn handler_failure_is_passed_on() {
    let err = Command::name("x")
        .handler(Call(|_: &Vec<Symbol<'_>>| {
            Err(cli_rs::cli_error::CliError::new(ErrorKind::UnexpectedToken, "mine".to_string()))
        }))
        .parse_args(&[])
        .unwrap_err();
    assert_eq!(err.msg, "mine");
    assert_eq!(err.kind, ErrorKind::UnexpectedToken);
}

#[test]
fn flag_shapes() {
    let mut flag = Flag::bool("create");
    assert_eq!(flag.parse("--created").unwrap(), false);
    assert_eq!(flag.parse("-x").unwrap(), false);
    assert_eq!(flag.parse("create").unwrap(), false);
    assert_eq!(flag.parse("--create=false").unwrap(), true);
    assert!(matches!(flag.get(), Value::Bool(false)));
    let mut flag = Flag::bool("create");
    assert_eq!(flag.parse("--create=maybe").unwrap_err().kind, ErrorKind::ValueConversionFailure);
    assert!(!flag.parsed());
    let mut editor = Flag::new("editor", ValueKind::Str);
    assert_eq!(editor.parse("--editor").unwrap(), false);
    assert_eq!(editor.parse("-e").unwrap(), false);
    assert!(matches!(editor.get(), Value::Str(s) if s.is_empty()));
    assert_eq!(editor.parse("--editor=a=b").unwrap(), true);
    assert!(matches!(editor.get(), Value::Str(s) if s == "a=b"));
    assert_eq!(editor.input_type(), InputType::Flag);
    assert!(editor.has_default());
    assert!(!editor.is_bool_flag());
    assert_eq!(editor.display_name(), "editor");
}

#[test]
fn decimal_numbers() {
    assert_eq!(parse_i32("2147483647"), Some(i32::MAX));
    assert_eq!(parse_i32("-2147483648"), Some(i32::MIN));
    assert_eq!(parse_i32("2147483648"), None);
    assert_eq!(parse_i32("-2147483649"), None);
    assert_eq!(parse_i32("+5"), Some(5));
    assert_eq!(parse_i32("00012"), Some(12));
    assert_eq!(parse_i32("-0"), Some(0));
    assert_eq!(parse_i32(""), None);
    assert_eq!(parse_i32("-"), None);
    assert_eq!(parse_i32("1_0"), None);
    assert_eq!(parse_i32(" 1"), None);
    assert_eq!(parse_i32("99999999999999999999999999"), None);
    for text in ["0", "7", "-1", "123456", "+5", "-2147483648", "x", "", "2147483648"] {
        assert_eq!(parse_i32(text), text.parse::<i32>().ok());
    }
}

#[test]
fn written_values_convert_back() {
    for v in [0, 1, -1, 10, 99, -100, 12345, i32::MAX, i32::MIN] {
        let text = ValueKind::Int.render(&Value::Int(v)).unwrap();
        assert_eq!(text, v.to_string());
        assert!(matches!(ValueKind::Int.convert(&text), Some(Value::Int(n)) if n == v));
    }
    for b in [true, false] {
        let text = ValueKind::Bool.render(&Value::Bool(b)).unwrap();
        assert!(matches!(ValueKind::Bool.convert(&text), Some(Value::Bool(x)) if x == b));
    }
    let text = ValueKind::Str.render(&Value::Str("a b".to_string())).unwrap();
    assert!(matches!(ValueKind::Str.convert(&text), Some(Value::Str(s)) if s == "a b"));
    let shells = ValueKind::Choice(vec!["bash".to_string(), "zsh".to_string(), "fish".to_string()]);
    for i in 0..3 {
        let text = shells.render(&Value::Choice(i)).unwrap();
        assert!(matches!(shells.convert(&text), Some(Value::Choice(j)) if j == i));
    }
    assert!(shells.render(&Value::Choice(3)).is_none());
    assert!(shells.render(&Value::Int(1)).is_none());
    assert!(matches!(shells.convert("ZSH"), Some(Value::Choice(1))));
    assert!(shells.convert("csh").is_none());
}

#[test]
fn help_text_is_laid_out_in_columns_and_stable() {
    let cmd = Command::name("edit")
        .input(Arg::str("name").description("file to edit"))
        .input(Flag::bool("create"));
    let expected = "edit\n\nUSAGE:\n\tedit [options], <args>\n\nFLAGS:\n\t--create    \n\t--help       view help\n\nARGS:\n\tname       file to edit\n";
    assert_eq!(cmd.plain_help(), expected);
    assert_eq!(cmd.plain_help(), cmd.plain_help());

    let root = Command::name("lb")
        .description("notes")
        .version("1.0")
        .subcommand(Command::name("edit").description("edit a file"))
        .subcommand(Command::name("ls"));
    let expected = "lb - notes\n\nUSAGE:\n\tlb <subcommand>\n\nSUBCOMMANDS:\n\tedit edit a file\n\tls  \n\nFLAGS:\n\t--help       view help\n\t--version    display CLI version\n";
    assert_eq!(root.plain_help(), expected);
}

#[test]
fn long_names_widen_the_column() {
    let cmd = Command::name("x").input(Flag::bool("a-very-long-name")).input(Arg::str("n"));
    let text = cmd.plain_help();
    assert!(text.contains("\t--a-very-long-name   \n"));
    assert!(text.contains("\t--help                view help\n"));
    assert!(text.contains("\tn                  \n"));
}

#[test]
fn paths_reach_down_the_whole_tree() {
    let root = Command::name("root")
        .subcommand(Command::name("a").subcommand(Command::name("b").subcommand(Command::name("c"))));
    let a = &root.subcommands[0];
    let b = &a.subcommands[0];
    let c = &b.subcommands[0];
    assert_eq!(root.docs.cmd_path(), "root");
    assert_eq!(a.docs.cmd_path(), "root a");
    assert_eq!(b.docs.cmd_path(), "root a b");
    assert_eq!(c.docs.cmd_path(), "root a b c");
}

#[test]
fn help_and_version_stop_early() {
    let mut called = false;
    let mut cmd = Command::name("prog")
        .version("1.2")
        .handler(Call(|_: &Vec<Symbol<'_>>| {
            called = true;
            Ok(())
        }));
    let e = cmd.parse_args(&tokens(&["--version"])).unwrap_err();
    assert_eq!(e.kind, ErrorKind::HelpRequested);
    assert_eq!(e.msg, "prog -- 1.2");
    let e = cmd.parse_args(&tokens(&["--help"])).unwrap_err();
    assert_eq!(e.kind, ErrorKind::HelpRequested);
    assert!(e.msg.contains("--version"));
    drop(cmd);
    assert!(!called);

    let mut plain = Command::name("prog").handler(Call(|_: &Vec<Symbol<'_>>| Ok(())));
    let e = plain.parse_args(&tokens(&["--version"])).unwrap_err();
    assert_eq!(e.kind, ErrorKind::UnexpectedFlagLikeToken);
}

#[test]
fn completions_subcommand_hands_out_scripts() {
    let mut root = Command::name("prog").with_completions();
    match root.parse_args(&tokens(&["completions", "bash"])).unwrap() {
        Reply::Print(text) => {
            assert!(text.contains("complete -o nospace -F _prog_complete_ prog -E"));
            assert!(text.ends_with('\n'));
            assert_eq!(text, format!("{}\n", CompletionMode::Bash.script("prog")));
        }
        other => panic!("unexpected {:?}", other),
    }
    let mut root = Command::name("prog").with_completions();
    match root.parse_args(&tokens(&["completions", "FISH"])).unwrap() {
        Reply::Print(text) => assert_eq!(
            text,
            "complete -c prog -f --condition \"not __fish_seen_subcommand_from file-command non-file-command\" -a '(prog complete fish 0 (commandline -cp))'\n"
        ),
        other => panic!("unexpected {:?}", other),
    }
    let mut root = Command::name("prog").with_completions();
    match root.parse_args(&tokens(&["completions", "zsh"])).unwrap() {
        Reply::Print(text) => assert!(text.starts_with("\n#compdef prog\nfunction _prog {\n")),
        other => panic!("unexpected {:?}", other),
    }
    let mut root = Command::name("prog").with_completions();
    let e = root.parse_args(&tokens(&["completions", "csh"])).unwrap_err();
    assert_eq!(e.kind, ErrorKind::ValueConversionFailure);
    let found = root.complete_args(&tokens(&["completions", "b"])).unwrap();
    assert_eq!(names(&found), vec!["bash".to_string()]);
}

#[test]
fn shells_are_named_in_any_case() {
    assert_eq!(CompletionMode::from_str("bash"), Some(CompletionMode::Bash));
    assert_eq!(CompletionMode::from_str("Zsh"), Some(CompletionMode::Zsh));
    assert_eq!(CompletionMode::from_str("FISH"), Some(CompletionMode::Fish));
    assert_eq!(CompletionMode::from_str("sh"), None);
    assert_eq!(CompletionMode::from_str(""), None);
}

fn tree<'a>() -> Command<'a> {
    Command::name("prog")
        .subcommand(
            Command::name("edit")
                .description("edit a file")
                .input(Flag::new("editor", ValueKind::Str).completor(Fixed(vec!["vim", "nvim", "nano"])))
                .input(Flag::bool("force").description("don't ask"))
                .input(Arg::str("target").completor(Fixed(vec!["todo.md", "test.md", "a.md"])))
                .input(Arg::str("other").completor(Fixed(vec!["x", "y"]))),
        )
        .subcommand(Command::name("export"))
        .subcommand(Command::name("list"))
}

#[test]
fn completion_walks_the_tree() {
    assert!(tree().complete_args(&[]).unwrap().is_empty());
    let found = tree().complete_args(&tokens(&["e"])).unwrap();
    assert_eq!(names(&found), vec!["edit".to_string(), "export".to_string()]);
    assert_eq!(found[0].desc, Some("edit a file".to_string()));
    assert_eq!(found[1].desc, None);
    let found = tree().complete_args(&tokens(&["edit"])).unwrap();
    assert_eq!(names(&found), vec!["edit".to_string()]);
    let found = tree().complete_args(&tokens(&["edit", "--"])).unwrap();
    assert_eq!(names(&found), vec!["--editor=".to_string(), "--force".to_string(), "--help".to_string()]);
    assert_eq!(found[1].desc, Some("don't ask".to_string()));
    let found = tree().complete_args(&tokens(&["edit", "-f"])).unwrap();
    assert_eq!(names(&found), vec!["--force".to_string()]);
    let found = tree().complete_args(&tokens(&["edit", "--editor=n"])).unwrap();
    assert_eq!(names(&found), vec!["--editor=nvim".to_string(), "--editor=nano".to_string()]);
    let found = tree().complete_args(&tokens(&["edit", "--force=x"])).unwrap();
    assert!(found.is_empty());
    let found = tree().complete_args(&tokens(&["edit", "--nope=x"])).unwrap();
    assert!(found.is_empty());
    let found = tree().complete_args(&tokens(&["edit", "t"])).unwrap();
    assert_eq!(names(&found), vec!["todo.md".to_string(), "test.md".to_string()]);
    let found = tree().complete_args(&tokens(&["edit", "--force", "a.md", ""])).unwrap();
    assert_eq!(names(&found), vec!["x".to_string(), "y".to_string()]);
    let found = tree().complete_args(&tokens(&["edit", "a", "b", "c"])).unwrap();
    assert!(found.is_empty());
    let err = tree().complete_args(&tokens(&["nope", "x"])).unwrap_err();
    assert_eq!(err.kind, ErrorKind::SubcommandNotFound);
    let found = tree().complete_args(&tokens(&["--h"])).unwrap();
    assert_eq!(names(&found), vec!["--help".to_string()]);
}

#[test]
fn candidates_begin_with_the_partial_text() {
    let lists: [Vec<&'static str>; 3] = [vec!["vim", "nvim", "nano", "", "v"], vec![], vec!["--x", "vi"]];
    for list in lists {
        for partial in ["", "v", "vi", "n", "nv", "zzz", "-"] {
            let mut arg = Arg::str("a").completor(Fixed(list.clone()));
            for candidate in arg.complete(partial).unwrap() {
                assert!(candidate.starts_with(partial));
            }
            let mut flag = Flag::new("f", ValueKind::Str).completor(Fixed(list.clone()));
            let kept = flag.complete(partial).unwrap();
            let expected: Vec<String> =
                list.iter().filter(|c| c.starts_with(partial)).map(|c| c.to_string()).collect();
            assert_eq!(kept, expected);
        }
    }
    let mut bare = Arg::str("a");
    assert!(bare.complete("x").unwrap().is_empty());
}

#[test]
fn candidates_are_written_for_each_shell() {
    let list = vec![
        CompOut { name: "--create".to_string(), desc: None },
        CompOut { name: "--help".to_string(), desc: Some("view 'the' \"help\"".to_string()) },
    ];
    assert_eq!(encode(CompletionMode::Bash, "prog", &list), "--create\n--help\n");
    assert_eq!(encode(CompletionMode::Fish, "prog", &list), "--create\n--help\tview 'the' \"help\"\n");
    assert_eq!(
        encode(CompletionMode::Zsh, "prog", &list),
        "_describe 'prog' \"('--create' '--help:view the help')\"\n"
    );
    assert_eq!(encode(CompletionMode::Bash, "prog", &Vec::new()), "");
    assert_eq!(encode(CompletionMode::Zsh, "prog", &Vec::new()), "_describe 'prog' \"()\"\n");
    assert_eq!(unquote("a'b\"c"), "abc");
}

#[test]
fn lines_are_split_at_single_spaces() {
    assert_eq!(split_at("a b", ' '), vec!["a".to_string(), "b".to_string()]);
    assert_eq!(split_at("", ' '), vec!["".to_string()]);
    assert_eq!(split_at("a ", ' '), vec!["a".to_string(), "".to_string()]);
    assert_eq!(split_at("a  b", ' '), vec!["a".to_string(), "".to_string(), "b".to_string()]);
    for line in ["prog edit --x", " ", "  a", "héllo wörld "] {
        let expected: Vec<String> = line.split(' ').map(|s| s.to_string()).collect();
        assert_eq!(split_at(line, ' '), expected);
    }
    assert_eq!(parse_index("0"), Some(0));
    assert_eq!(parse_index("12"), Some(12));
    assert_eq!(parse_index(""), None);
    assert_eq!(parse_index("-1"), None);
    assert_eq!(parse_index("99999999999999999999999999999"), None);
}

#[test]
fn completion_requests_are_answered() {
    let prog = || Command::name("prog").input(Flag::bool("create")).input(Arg::str("name").completor(Fixed(vec!["a.md", "b.md"])));
    let run = |words: &[&str]| match prog().parse(&tokens(words)).unwrap() {
        Reply::Print(text) => text,
        other => panic!("unexpected {:?}", other),
    };
    assert_eq!(run(&["prog", "complete", "bash", "1", "prog --cre"]), "--create\n");
    assert_eq!(run(&["prog", "complete", "bash", "1", "prog --cre ignored"]), "--create\n");
    assert_eq!(run(&["prog", "complete", "fish", "0", "prog --"]), "--create\n--help\tview help\n");
    assert_eq!(
        run(&["prog", "complete", "zsh", "1", "prog --"]),
        "_describe 'prog' \"('--create' '--help:view help')\"\n"
    );
    assert_eq!(run(&["prog", "complete", "bash", "9", "sudo prog a"]), "a.md\n");
    assert_eq!(run(&["prog", "complete", "bash", "0", "prog a"]), "");
    let err = prog().parse(&tokens(&["prog", "complete", "csh", "1", "prog a"])).unwrap_err();
    assert_eq!(err.kind, ErrorKind::ValueConversionFailure);
    let err = prog().parse(&tokens(&["prog", "complete", "bash", "one", "prog a"])).unwrap_err();
    assert_eq!(err.kind, ErrorKind::ValueConversionFailure);
    assert_eq!(err.msg, "one cannot be parsed for word index");
}

#[test]
fn other_invocations_are_run() {
    let mut seen = Vec::new();
    let reply = edit(&mut seen).parse(&tokens(&["edit", "todo.md", "-c"])).unwrap();
    assert!(matches!(reply, Reply::Done));
    assert_eq!(seen, vec![("todo.md".to_string(), true)]);
    let mut seen = Vec::new();
    let err = edit(&mut seen).parse(&tokens(&["edit", "complete", "bash", "1"])).unwrap_err();
    assert_eq!(err.kind, ErrorKind::UnexpectedToken);
    let err = edit(&mut seen).parse(&[]).unwrap_err();
    assert_eq!(err.kind, ErrorKind::MissingRequiredArgument);
}
