use cli_rs::arg::Arg;
use cli_rs::cli_error::{CliError, CliResult, ErrorKind};
use cli_rs::command::{Command, Handler, WordList};
use cli_rs::exit::{Ending, Exit};
use cli_rs::flag::Flag;
use cli_rs::input::{keep_with_prefix, Input, InputType};
use cli_rs::parser::Reply;
use cli_rs::request::asks_for_completions;
use cli_rs::symbol::Symbol;
use cli_rs::value::{Value, ValueKind};

struct Count<'a>(&'a mut u32);

impl Handler for Count<'_> {
    fn call(&mut self, inputs: &Vec<Symbol<'_>>) -> CliResult<()> {
        *self.0 += 1;
        if inputs.is_empty() {
            Ok(())
        } else {
            Err(CliError::new(ErrorKind::UnexpectedToken, format!("{} inputs", inputs.len())))
        }
    }
}

fn tokens(words: &[&str]) -> Vec<String> {
    words.iter().map(|w| w.to_string()).collect()
}

#[test]
fn a_later_handler_replaces_an_earlier_one() {
    let mut first = 0;
    let mut second = 0;
    Command::name("x").handler(Count(&mut first)).handler(Count(&mut second)).parse_args(&[]).unwrap();
    assert_eq!((first, second), (0, 1));
}

#[test]
fn call_handler_hands_over_every_input() {
    let mut calls = 0;
    let mut cmd = Command::name("x").input(Flag::bool("a")).input(Arg::str("b")).handler(Count(&mut calls));
    let err = cmd.call_handler().unwrap_err();
    assert_eq!(err.msg, "2 inputs");
    drop(cmd);
    assert_eq!(calls, 1);

    let mut bare = Command::name("x");
    let err = bare.call_handler().unwrap_err();
    assert_eq!(err.kind, ErrorKind::NoHandlerBound);
    assert_eq!(err.msg, "No handler hooked up to x");
}

#[test]
fn subcommands_are_reached_by_index() {
    let mut calls = 0;
    let mut root = Command::name("root")
        .subcommand(Command::name("a").description("first").input(Arg::i32("n")))
        .subcommand(Command::name("b").handler(Count(&mut calls)));
    let docs = root.subcommand_docs();
    assert_eq!(docs.len(), 2);
    assert_eq!(docs[0].name, "a");
    assert_eq!(docs[0].description, Some("first".to_string()));
    assert_eq!(docs[0].parents, vec!["root".to_string()]);
    assert_eq!(docs[1].cmd_path(), "root b");
    assert_eq!(root.docs().name, "root");

    assert!(matches!(root.parse_subcommand(1, &[]), Ok(Reply::Done)));
    let err = root.parse_subcommand(0, &tokens(&["x"])).unwrap_err();
    assert_eq!(err.kind, ErrorKind::ValueConversionFailure);
    let found = root.complete_subcommand(0, &tokens(&["--he"])).unwrap();
    assert_eq!(found.len(), 1);
    assert_eq!(found[0].name, "--help");
    assert_eq!(found[0].desc, Some("view help".to_string()));
    assert_eq!(root.child_named("b"), Some(1));
    assert_eq!(root.child_named("c"), None);
    drop(root);
    assert_eq!(calls, 1);
}

#[test]
fn inputs_can_be_filled_by_hand() {
    let mut cmd = Command::name("x").input(Arg::i32("n")).input(Flag::new("level", ValueKind::Int));
    assert_eq!(cmd.missing_argument(), Some(0));
    assert_eq!(cmd.symbols().len(), 2);
    assert_eq!(cmd.symbols()[0].parse("12").unwrap(), true);
    assert_eq!(cmd.missing_argument(), None);
    assert!(matches!(cmd.symbols[0].get(), Some(Value::Int(12))));
    assert!(matches!(cmd.symbols[1].get(), Some(Value::Int(0))));
    cmd.offer_flags("--level=3").unwrap();
    assert!(matches!(cmd.symbols[1].get(), Some(Value::Int(3))));
    let err = cmd.offer_flags("--level=4").unwrap_err();
    assert_eq!(err.kind, ErrorKind::UnexpectedFlagLikeToken);
    let err = cmd.offer_args("13").unwrap_err();
    assert_eq!(err.kind, ErrorKind::UnexpectedToken);
    assert_eq!(cmd.arg_at(0), Some(0));
    assert_eq!(cmd.arg_at(1), None);
    assert_eq!(cmd.flag_called("level"), Some(1));
    assert_eq!(cmd.flag_called("n"), None);
}

#[test]
fn an_argument_without_value_or_default_reads_nothing() {
    let arg = Arg::str("a");
    assert!(arg.try_get().is_none());
    assert!(Symbol::from(arg).get().is_none());
    let arg = Arg::str("a").default(Value::Str("dflt".to_string()));
    assert!(arg.has_default());
    assert!(matches!(arg.get(), Value::Str(s) if s == "dflt"));
    let described = arg.description("an argument");
    assert_eq!(Input::description(&described), Some("an argument".to_string()));
    assert_eq!(described.input_type(), InputType::Arg);
    assert_eq!(InputType::Arg.label(), "Arg");
    assert_eq!(InputType::Flag.label(), "Flag");
}

#[test]
fn word_lists_suggest_by_prefix() {
    let list = WordList { words: vec!["vim".to_string(), "nvim".to_string(), "vi".to_string()] };
    assert_eq!(list.matching("vi"), vec!["vim".to_string(), "vi".to_string()]);
    assert_eq!(list.matching(""), list.words);
    assert!(list.matching("x").is_empty());
    assert_eq!(keep_with_prefix(&list.words, "n"), vec!["nvim".to_string()]);
}

#[test]
fn results_say_how_the_process_ends() {
    let done: CliResult<Reply> = Ok(Reply::Done);
    assert_eq!(done.exit(), Ending { status: 0, out: String::new(), err: String::new() });
    let print: CliResult<Reply> = Ok(Reply::Print("a\n".to_string()));
    assert_eq!(print.clone().exit().out, "a\n");
    assert_eq!(print.clone().exit_silently().out, "a\n");
    assert_eq!(print.exit_if_err(), Ok(Reply::Print("a\n".to_string())));

    let help: CliResult<Reply> = Err(CliError::new(ErrorKind::HelpRequested, "usage".to_string()));
    assert_eq!(
        help.clone().exit(),
        Ending { status: 0, out: "usage\n".to_string(), err: String::new() }
    );
    assert_eq!(help.exit_silently(), Ending { status: 1, out: String::new(), err: String::new() });

    let bad: CliResult<Reply> = Err(CliError::new(ErrorKind::UnexpectedToken, "no".to_string()));
    let loud = Ending { status: 3, out: String::new(), err: "no\n".to_string() };
    assert_eq!(bad.clone().exit(), loud);
    assert_eq!(bad.clone().exit_if_err(), Err(loud));
    assert_eq!(bad.exit_silently(), Ending { status: 3, out: String::new(), err: String::new() });
}

#[test]
fn an_invocation_is_served_to_its_end() {
    let prog = || Command::name("prog").input(Flag::bool("create")).input(Arg::str("name"));
    let args = tokens(&["prog", "complete", "bash", "1", "prog --cre"]);
    assert!(asks_for_completions(&args));
    assert_eq!(
        prog().serve(&args),
        Ending { status: 0, out: "--create\n".to_string(), err: String::new() }
    );
    let args = tokens(&["prog", "complete", "csh", "1", "prog --cre"]);
    assert_eq!(prog().serve(&args), Ending { status: 6, out: String::new(), err: String::new() });

    let args = tokens(&["prog", "a.md"]);
    assert!(!asks_for_completions(&args));
    assert_eq!(
        prog().serve(&args),
        Ending { status: 7, out: String::new(), err: "No handler hooked up to prog\n".to_string() }
    );
    let args = tokens(&["prog", "--version"]);
    let ending = prog().version("0.3").serve(&args);
    assert_eq!(ending, Ending { status: 0, out: "prog -- 0.3\n".to_string(), err: String::new() });
    assert!(!asks_for_completions(&tokens(&["prog", "complete", "bash", "1"])));
    assert!(!asks_for_completions(&[]));
}
