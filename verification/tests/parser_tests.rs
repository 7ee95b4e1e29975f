use cli_rs::arg::Arg;
use cli_rs::cli_error::{CliResult, ErrorKind};
use cli_rs::command::{Command, Handler};
use cli_rs::flag::Flag;
use cli_rs::symbol::Symbol;
use cli_rs::value::{Value, ValueKind};

/// Lets a closure stand as the handler of a command.
struct Call<F>(F);

impl<F: FnMut(&Vec<Symbol<'_>>) -> CliResult<()>> Handler for Call<F> {
    fn call(&mut self, inputs: &Vec<Symbol<'_>>) -> CliResult<()> {
        (self.0)(inputs)
    }
}

fn text(symbol: &Symbol<'_>) -> String {
    match symbol.get() {
        Some(Value::Str(s)) => s,
        other => panic!("not a text: {:?}", other),
    }
}

fn number(symbol: &Symbol<'_>) -> i32 {
    match symbol.get() {
        Some(Value::Int(n)) => n,
        other => panic!("not a number: {:?}", other),
    }
}

fn truth(symbol: &Symbol<'_>) -> bool {
    match symbol.get() {
        Some(Value::Bool(b)) => b,
        other => panic!("not a boolean: {:?}", other),
    }
}

#[derive(Debug, PartialEq, Clone, Copy)]
pub enum FileType {
    Folder,
    Document,
}

fn file_type_kind() -> ValueKind {
    ValueKind::Choice(vec![
        "folder".to_string(),
        "dir".to_string(),
        "doc".to_string(),
        "document".to_string(),
    ])
}

fn file_type(symbol: &Symbol<'_>) -> FileType {
    match symbol.get() {
        Some(Value::Choice(0)) | Some(Value::Choice(1)) => FileType::Folder,
        Some(Value::Choice(2)) | Some(Value::Choice(3)) => FileType::Document,
        other => panic!("not a file type: {:?}", other),
    }
}

#[test]
fn basic_command() {
    let mut called = false;
    Command::name("test")
        .handler(Call(|_: &Vec<Symbol<'_>>| {
            called = true;
            Ok(())
        }))
        .parse_args(&[])
        .unwrap();
    assert!(called);
}

#[test]
fn with_1_arg() {
    let mut input_name = String::default();

    Command::name("test")
        .input(Arg::str("name"))
        .handler(Call(|inputs: &Vec<Symbol<'_>>| {
            input_name = text(&inputs[0]);
            Ok(())
        }))
        .parse_args(&["parth".to_string()])
        .unwrap();

    assert_eq!(input_name, "parth");
}

#[test]
fn with_2_args() {
    let mut name = String::default();
    let mut age = 0;

    Command::name("nameage")
        .input(Arg::str("name"))
        .input(Arg::i32("age"))
        .handler(Call(|inputs: &Vec<Symbol<'_>>| {
            name = text(&inputs[0]);
            age = number(&inputs[1]);
            Ok(())
        }))
        .parse_args(&["parth".to_string(), "27".to_string()])
        .unwrap();

    assert_eq!(name, "parth");
    assert_eq!(age, 27);
}

#[test]
fn missing_arg() {
    let mut name = String::default();
    let mut age = 0;

    let err = Command::name("nameage")
        .input(Arg::str("name"))
        .input(Arg::i32("age"))
        .handler(Call(|inputs: &Vec<Symbol<'_>>| {
            name = text(&inputs[0]);
            age = number(&inputs[1]);
            Ok(())
        }))
        .parse_args(&["parth".to_string()])
        .unwrap_err();

    assert_eq!(err.kind, ErrorKind::MissingRequiredArgument);
    assert_eq!(name, String::default());
    assert_eq!(age, 0);
}

#[test]
fn arg_parsing_failure() {
    let mut file = FileType::Folder;

    Command::name("arg-test")
        .input(Arg::name("type", file_type_kind()))
        .handler(Call(|inputs: &Vec<Symbol<'_>>| {
            file = file_type(&inputs[0]);
            Ok(())
        }))
        .parse_args(&["not-a-doc".to_string()])
        .unwrap_err();
}

#[test]
fn with_custom_args() {
    let mut name = String::default();
    let mut ft = FileType::Folder;

    Command::name("create")
        .input(Arg::str("name"))
        .input(Arg::name("type", file_type_kind()))
        .handler(Call(|inputs: &Vec<Symbol<'_>>| {
            name = text(&inputs[0]);
            ft = file_type(&inputs[1]);
            Ok(())
        }))
        .parse_args(&["todo.md".to_string(), "doc".to_string()])
        .unwrap();

    assert_eq!(name, "todo.md");
    assert_eq!(ft, FileType::Document);
}

#[test]
fn with_flags() {
    let mut name = String::default();
    let mut create = false;

    Command::name("edit")
        .input(Arg::str("name"))
        .input(Flag::bool("create"))
        .handler(Call(|inputs: &Vec<Symbol<'_>>| {
            name = text(&inputs[0]);
            create = truth(&inputs[1]);
            Ok(())
        }))
        .parse_args(&["todo.md".to_string(), "--create=true".to_string()])
        .unwrap();

    assert_eq!(name, "todo.md");
    assert_eq!(create, true);
}

#[test]
fn bool_flags() {
    let mut name = String::default();
    let mut create = false;

    Command::name("edit")
        .input(Arg::str("name"))
        .input(Flag::bool("create"))
        .handler(Call(|inputs: &Vec<Symbol<'_>>| {
            name = text(&inputs[0]);
            create = truth(&inputs[1]);
            Ok(())
        }))
        .parse_args(&["todo.md".to_string(), "--create".to_string()])
        .unwrap();

    assert_eq!(name, "todo.md");
    assert_eq!(create, true);
}

#[test]
fn short_flag_lower() {
    let mut name = String::default();
    let mut create = false;

    Command::name("edit")
        .input(Arg::str("name"))
        .input(Flag::bool("create"))
        .handler(Call(|inputs: &Vec<Symbol<'_>>| {
            name = text(&inputs[0]);
            create = truth(&inputs[1]);
            Ok(())
        }))
        .parse_args(&["todo.md".to_string(), "-c".to_string()])
        .unwrap();

    assert_eq!(name, "todo.md");
    assert_eq!(create, true);
}

#[test]
fn short_flag_upper() {
    let mut name = String::default();
    let mut create = false;

    Command::name("edit")
        .input(Arg::str("name"))
        .input(Flag::bool("create"))
        .handler(Call(|inputs: &Vec<Symbol<'_>>| {
            name = text(&inputs[0]);
            create = truth(&inputs[1]);
            Ok(())
        }))
        .parse_args(&["todo.md".to_string(), "-C".to_string()])
        .unwrap();

    assert_eq!(name, "todo.md");
    assert_eq!(create, true);
}

#[test]
fn flag_order() {
    let mut name = String::default();
    let mut create = false;

    Command::name("edit")
        .input(Arg::str("name"))
        .input(Flag::bool("create"))
        .handler(Call(|inputs: &Vec<Symbol<'_>>| {
            name = text(&inputs[0]);
            create = truth(&inputs[1]);
            Ok(())
        }))
        .parse_args(&["todo.md".to_string(), "--create".to_string()])
        .unwrap();

    assert_eq!(name, "todo.md");
    assert_eq!(create, true);
}

#[test]
fn flag_parsing_failure() {
    let mut name = String::default();
    let mut f_type = FileType::Folder;

    Command::name("edit")
        .input(Arg::str("name"))
        .input(Flag::new("type", file_type_kind()))
        .handler(Call(|inputs: &Vec<Symbol<'_>>| {
            name = text(&inputs[0]);
            f_type = file_type(&inputs[1]);
            Ok(())
        }))
        .parse_args(&["todo.md".to_string(), "--create".to_string()])
        .unwrap_err();
}

#[test]
fn subcommands() {
    let mut path = String::default();

    Command::name("lockbook")
        .subcommand(
            Command::name("edit")
                .input(Arg::str("path"))
                .handler(Call(|inputs: &Vec<Symbol<'_>>| {
                    path = text(&inputs[0]);
                    Ok(())
                })),
        )
        .parse_args(&["edit".to_string(), "path".to_string()])
        .unwrap();

    assert_eq!(path, "path");
}

#[test]
fn subcommand_missing_arg() {
    Command::name("lockbook")
        .subcommand(
            Command::name("edit")
                .input(Arg::str("path"))
                .handler(Call(|_: &Vec<Symbol<'_>>| unreachable!())),
        )
        .with_completions()
        .parse_args(&["completions".to_string()])
        .unwrap_err();
}

#[test]
fn subcommands_mismatch() {
    let mut path = String::default();

    Command::name("lockbook")
        .subcommand(
            Command::name("new")
                .input(Arg::str("path"))
                .handler(Call(|inputs: &Vec<Symbol<'_>>| {
                    path = text(&inputs[0]);
                    Ok(())
                })),
        )
        .parse_args(&["edit".to_string(), "path".to_string()])
        .unwrap_err();

    assert_eq!(path, String::default());
}
